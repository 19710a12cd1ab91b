use vstd::prelude::*;
use vstd::string::StringExecFns;
use crate::element_tree::{
    AggregateState, Describe, Element, EventPass, LocalEventPass, NoState, ProcessEventCtx,
    ReconcileCtx, VirtualDom,
};
use crate::elements::empty::EmptyElementData;
use crate::glue::{AppData, Env, EventCtx, GlobalEventCx};
use crate::widgets::EmptySequence;

verus! {

/// Two elements side by side, the first before the second. A longer run of
/// elements is a group whose second element is a group.
#[derive(Default, Clone, Debug, PartialEq, Eq, Hash)]
pub struct Group<First, Second> {
    pub first: First,
    pub second: Second,
}

/// The virtual-DOM node of [`Group`].
#[derive(Default, Clone, Debug, PartialEq, Eq, Hash)]
pub struct GroupData<First, Second> {
    pub first: First,
    pub second: Second,
}

/// An event that one of the two elements of a group raised.
#[derive(Clone, Debug, PartialEq, Eq, Hash)]
pub enum GroupEvent<First, Second> {
    First(First),
    Second(Second),
}

impl<First, Second> Group<First, Second> {
    pub fn new(first: First, second: Second) -> (group: Self)
        ensures
            group == (Group { first, second }),
    {
        Group { first, second }
    }
}

impl<First, Second> GroupData<First, Second> {
    pub fn new(first: First, second: Second) -> (group: Self)
        ensures
            group == (GroupData { first, second }),
    {
        GroupData { first, second }
    }
}

/// The description of two things side by side.
pub open spec fn described_pair(first: Seq<char>, second: Seq<char>) -> Seq<char> {
    "("@ + first + ", "@ + second + ")"@
}

/// Puts `first` and `second` side by side in brackets.
pub fn describe_pair(first: String, second: String) -> (text: String)
    ensures
        text@ == described_pair(first@, second@),
{
    let mut text = String::from_str("(");
    text.append(first.as_str());
    text.append(", ");
    text.append(second.as_str());
    text.append(")");
    text
}

impl<First: Describe, Second: Describe> Describe for Group<First, Second> {
    open spec fn description(&self) -> Seq<char> {
        described_pair(self.first.description(), self.second.description())
    }

    fn describe(&self) -> (text: String) {
        describe_pair(self.first.describe(), self.second.describe())
    }
}

impl<First: Describe, Second: Describe> Describe for GroupData<First, Second> {
    open spec fn description(&self) -> Seq<char> {
        described_pair(self.first.description(), self.second.description())
    }

    fn describe(&self) -> (text: String) {
        describe_pair(self.first.describe(), self.second.describe())
    }
}

impl<CpEvent, CpState, First: Element<CpEvent, CpState>, Second: Element<CpEvent, CpState>> Element<
    CpEvent,
    CpState,
> for Group<First, Second> {
    type Event = GroupEvent<First::Event, Second::Event>;

    type ComponentState = NoState;

    type AggregateChildrenState = (First::AggregateChildrenState, Second::AggregateChildrenState);

    type BuildOutput = GroupData<First::BuildOutput, Second::BuildOutput>;

    open spec fn wf(&self) -> bool {
        &&& self.first.wf()
        &&& self.second.wf()
    }

    /// Each element is built on the state kept for it.
    open spec fn built(
        self,
        prev_state: (
            <First::AggregateChildrenState as AggregateState>::Model,
            <Second::AggregateChildrenState as AggregateState>::Model,
        ),
    ) -> (
        GroupData<First::BuildOutput, Second::BuildOutput>,
        (
            <First::AggregateChildrenState as AggregateState>::Model,
            <Second::AggregateChildrenState as AggregateState>::Model,
        ),
    ) {
        let (first, first_state) = self.first.built(prev_state.0);
        let (second, second_state) = self.second.built(prev_state.1);
        (GroupData { first, second }, (first_state, second_state))
    }

    fn build(self, prev_state: Self::AggregateChildrenState) -> (out: (
        Self::BuildOutput,
        Self::AggregateChildrenState,
    )) {
        let (first, first_state) = self.first.build(prev_state.0);
        let (second, second_state) = self.second.build(prev_state.1);
        (GroupData::new(first, second), (first_state, second_state))
    }

    open spec fn component_state(
        state: &(
            <First::AggregateChildrenState as AggregateState>::Model,
            <Second::AggregateChildrenState as AggregateState>::Model,
        ),
    ) -> Option<&NoState> {
        None
    }

    fn get_component_state(_state: &Self::AggregateChildrenState) -> (local: Option<&NoState>) {
        None
    }
}

impl<
    CpEvent,
    CpState,
    First: VirtualDom<CpEvent, CpState>,
    Second: VirtualDom<CpEvent, CpState>,
> VirtualDom<CpEvent, CpState> for GroupData<First, Second> {
    type Event = GroupEvent<First::Event, Second::Event>;

    type AggregateChildrenState = (First::AggregateChildrenState, Second::AggregateChildrenState);

    type TargetWidgetSeq = (First::TargetWidgetSeq, Second::TargetWidgetSeq);

    open spec fn wf(&self) -> bool {
        &&& self.first.wf()
        &&& self.second.wf()
    }

    open spec fn mounted(&self) -> (First::TargetWidgetSeq, Second::TargetWidgetSeq) {
        (self.first.mounted(), self.second.mounted())
    }

    fn init_tree(&self) -> (widget_seq: Self::TargetWidgetSeq) {
        (self.first.init_tree(), self.second.init_tree())
    }

    /// The first node reconciles its own widgets, then the second node does.
    open spec fn reconciled(
        &self,
        other: &Self,
        widget_seq: (First::TargetWidgetSeq, Second::TargetWidgetSeq),
        host: (EventCtx, AppData, Env),
    ) -> ((First::TargetWidgetSeq, Second::TargetWidgetSeq), (EventCtx, AppData, Env)) {
        let (first_seq, host) = self.first.reconciled(&other.first, widget_seq.0, host);
        let (second_seq, host) = self.second.reconciled(&other.second, widget_seq.1, host);
        ((first_seq, second_seq), host)
    }

    fn reconcile(
        &self,
        other: &Self,
        widget_seq: &mut Self::TargetWidgetSeq,
        ctx: &mut ReconcileCtx,
    ) {
        self.first.reconcile(&other.first, &mut widget_seq.0, ctx);
        self.second.reconcile(&other.second, &mut widget_seq.1, ctx);
    }

    open spec fn shown_by(
        &self,
        widget_seq: (First::TargetWidgetSeq, Second::TargetWidgetSeq),
    ) -> bool {
        &&& self.first.shown_by(widget_seq.0)
        &&& self.second.shown_by(widget_seq.1)
    }

    fn is_shown_by(
        &self,
        widget_seq: &(First::TargetWidgetSeq, Second::TargetWidgetSeq),
    ) -> (shown: bool) {
        self.first.is_shown_by(&widget_seq.0) && self.second.is_shown_by(&widget_seq.1)
    }

    proof fn lemma_mounted_shows(&self) {
        self.first.lemma_mounted_shows();
        self.second.lemma_mounted_shows();
    }

    proof fn lemma_reconciled_shows(
        &self,
        other: &Self,
        widget_seq: (First::TargetWidgetSeq, Second::TargetWidgetSeq),
        host: (EventCtx, AppData, Env),
    ) {
        self.first.lemma_reconciled_shows(&other.first, widget_seq.0, host);
        let host = self.first.reconciled(&other.first, widget_seq.0, host).1;
        self.second.lemma_reconciled_shows(&other.second, widget_seq.1, host);
    }

    proof fn lemma_reconcile_unchanged(
        &self,
        widget_seq: (First::TargetWidgetSeq, Second::TargetWidgetSeq),
        host: (EventCtx, AppData, Env),
    ) {
        self.first.lemma_reconcile_unchanged(widget_seq.0, host);
        let host = self.first.reconciled(&self.first, widget_seq.0, host).1;
        self.second.lemma_reconcile_unchanged(widget_seq.1, host);
    }

    /// The first node processes the event, then the second node does.
    open spec fn event_processed(
        &self,
        pass: EventPass<
            CpEvent,
            CpState,
            (
                <First::AggregateChildrenState as AggregateState>::Model,
                <Second::AggregateChildrenState as AggregateState>::Model,
            ),
            (First::TargetWidgetSeq, Second::TargetWidgetSeq),
        >,
    ) -> EventPass<
        CpEvent,
        CpState,
        (
            <First::AggregateChildrenState as AggregateState>::Model,
            <Second::AggregateChildrenState as AggregateState>::Model,
        ),
        (First::TargetWidgetSeq, Second::TargetWidgetSeq),
    > {
        let first = self.first.event_processed(
            EventPass {
                queue: pass.queue,
                state: pass.state,
                children_state: pass.children_state.0,
                widget_seq: pass.widget_seq.0,
                cx: pass.cx,
            },
        );
        let second = self.second.event_processed(
            EventPass {
                queue: first.queue,
                state: first.state,
                children_state: pass.children_state.1,
                widget_seq: pass.widget_seq.1,
                cx: first.cx,
            },
        );
        EventPass {
            queue: second.queue,
            state: second.state,
            children_state: (first.children_state, second.children_state),
            widget_seq: (first.widget_seq, second.widget_seq),
            cx: second.cx,
        }
    }

    fn process_event(
        &self,
        comp_ctx: &mut ProcessEventCtx<CpEvent, CpState>,
        children_state: &mut Self::AggregateChildrenState,
        widget_seq: &mut Self::TargetWidgetSeq,
        cx: &mut GlobalEventCx,
    ) {
        self.first.process_event(comp_ctx, &mut children_state.0, &mut widget_seq.0, cx);
        self.second.process_event(comp_ctx, &mut children_state.1, &mut widget_seq.1, cx);
    }

    /// The first node is asked for its event. Only where it has none is the
    /// second node asked, so that no event is taken and then lost.
    open spec fn local_event(
        &self,
        children_state: (
            <First::AggregateChildrenState as AggregateState>::Model,
            <Second::AggregateChildrenState as AggregateState>::Model,
        ),
        widget_seq: (First::TargetWidgetSeq, Second::TargetWidgetSeq),
        cx: GlobalEventCx,
    ) -> LocalEventPass<
        GroupEvent<First::Event, Second::Event>,
        (
            <First::AggregateChildrenState as AggregateState>::Model,
            <Second::AggregateChildrenState as AggregateState>::Model,
        ),
        (First::TargetWidgetSeq, Second::TargetWidgetSeq),
    > {
        let first = self.first.local_event(children_state.0, widget_seq.0, cx);
        match first.event {
            Some(event) => LocalEventPass {
                event: Some(GroupEvent::First(event)),
                children_state: (first.children_state, children_state.1),
                widget_seq: (first.widget_seq, widget_seq.1),
                cx: first.cx,
            },
            None => {
                let second = self.second.local_event(children_state.1, widget_seq.1, first.cx);
                LocalEventPass {
                    event: match second.event {
                        Some(event) => Some(GroupEvent::Second(event)),
                        None => None,
                    },
                    children_state: (first.children_state, second.children_state),
                    widget_seq: (first.widget_seq, second.widget_seq),
                    cx: second.cx,
                }
            },
        }
    }

    fn process_local_event(
        &self,
        children_state: &mut Self::AggregateChildrenState,
        widget_seq: &mut Self::TargetWidgetSeq,
        cx: &mut GlobalEventCx,
    ) -> (event: Option<Self::Event>) {
        match self.first.process_local_event(&mut children_state.0, &mut widget_seq.0, cx) {
            Some(event) => Some(GroupEvent::First(event)),
            None => {
                match self.second.process_local_event(
                    &mut children_state.1,
                    &mut widget_seq.1,
                    cx,
                ) {
                    Some(event) => Some(GroupEvent::Second(event)),
                    None => None,
                }
            },
        }
    }
}

/// An empty element beside another element leaves that element's widgets
/// alone: mounting the two mounts what the other mounts and nothing more,
/// and reconciling the two does to the widgets and to the host what
/// reconciling the other alone does.
pub proof fn lemma_empty_sibling_is_idle<CpEvent, CpState, Sibling: VirtualDom<CpEvent, CpState>>(
    sibling: Sibling,
    other: Sibling,
    widget_seq: Sibling::TargetWidgetSeq,
    host: (EventCtx, AppData, Env),
)
    ensures
        (GroupData { first: sibling, second: EmptyElementData }).mounted() == (
            sibling.mounted(),
            EmptySequence,
        ),
        (GroupData { first: EmptyElementData, second: sibling }).mounted() == (
            EmptySequence,
            sibling.mounted(),
        ),
        (GroupData { first: sibling, second: EmptyElementData }).reconciled(
            &(GroupData { first: other, second: EmptyElementData }),
            (widget_seq, EmptySequence),
            host,
        ) == (
            (sibling.reconciled(&other, widget_seq, host).0, EmptySequence),
            sibling.reconciled(&other, widget_seq, host).1,
        ),
        (GroupData { first: EmptyElementData, second: sibling }).reconciled(
            &(GroupData { first: EmptyElementData, second: other }),
            (EmptySequence, widget_seq),
            host,
        ) == (
            (EmptySequence, sibling.reconciled(&other, widget_seq, host).0),
            sibling.reconciled(&other, widget_seq, host).1,
        ),
{
}

} // verus!
