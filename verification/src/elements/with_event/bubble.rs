use vstd::prelude::*;
use crate::element_tree::{
    describe_as, described, AggregateState, Describe, Element, EventPass, LocalEventPass,
    Metadata, ProcessEventCtx, ReconcileCtx, VirtualDom,
};
use crate::elements::with_event::{
    below, declared_event, passed_on, raised, taken, ParentEvent, WithEventState,
};
use crate::glue::{AppData, Env, EventCtx, GlobalEventCx};
use std::marker::PhantomData;

verus! {

/// What a pass leaves behind at an element that bubbles events up. The
/// wrapped node processes the event first. Then it is asked for its own
/// event. Where that is one of the declared type, it joins the component's
/// queue at the back, as it is. The component's local state stays as the
/// wrapped node left it. Any other event is passed on unchanged.
pub open spec fn bubble_pass<
    CpEvent: ParentEvent<Event>,
    CpState,
    Event,
    Child: VirtualDom<CpEvent, CpState>,
>(
    child: Child,
    pass: EventPass<
        CpEvent,
        CpState,
        (Option<Child::Event>, <Child::AggregateChildrenState as AggregateState>::Model),
        Child::TargetWidgetSeq,
    >,
) -> EventPass<
    CpEvent,
    CpState,
    (Option<Child::Event>, <Child::AggregateChildrenState as AggregateState>::Model),
    Child::TargetWidgetSeq,
> where Child::Event: ParentEvent<Event> {
    let below = below(child, pass);
    let raised = raised(child, pass);
    EventPass {
        queue: match declared_event::<Child::Event, Event>(raised.event) {
            Some(event) => below.queue.push(CpEvent::injected(event)),
            None => below.queue,
        },
        state: below.state,
        children_state: (
            passed_on::<Child::Event, Event>(raised.event),
            raised.children_state,
        ),
        widget_seq: raised.widget_seq,
        cx: raised.cx,
    }
}

/// An element whose events of type `Event` become events of the component
/// it stands in, unchanged. Its other events pass through unchanged.
pub struct WithBubbleEvent<CpEvent, CpState, Event, Child> {
    pub element: Child,
    pub _metadata: Metadata<CpEvent, CpState>,
    pub _marker: PhantomData<Event>,
}

/// The virtual-DOM node of [`WithBubbleEvent`].
pub struct WithBubbleEventData<CpEvent, CpState, Event, Child> {
    pub element: Child,
    pub _metadata: Metadata<CpEvent, CpState>,
    pub _marker: PhantomData<Event>,
}

impl<CpEvent, CpState, Event, Child: Clone> Clone for WithBubbleEvent<
    CpEvent,
    CpState,
    Event,
    Child,
> {
    fn clone(&self) -> (copy: Self)
        ensures
            cloned(self.element, copy.element),
    {
        WithBubbleEvent {
            element: self.element.clone(),
            _metadata: Metadata::new(),
            _marker: PhantomData,
        }
    }
}

impl<CpEvent, CpState, Event, Child: Describe> Describe for WithBubbleEvent<
    CpEvent,
    CpState,
    Event,
    Child,
> {
    open spec fn description(&self) -> Seq<char> {
        described("WithBubbleEvent"@, self.element.description())
    }

    fn describe(&self) -> (text: String) {
        describe_as("WithBubbleEvent", self.element.describe())
    }
}

impl<CpEvent, CpState, Event, Child: Describe> Describe for WithBubbleEventData<
    CpEvent,
    CpState,
    Event,
    Child,
> {
    open spec fn description(&self) -> Seq<char> {
        described("WithBubbleEventData"@, self.element.description())
    }

    fn describe(&self) -> (text: String) {
        describe_as("WithBubbleEventData", self.element.describe())
    }
}

impl<
    CpEvent: ParentEvent<Event>,
    CpState,
    Event,
    Child: Element<CpEvent, CpState>,
> Element<CpEvent, CpState> for WithBubbleEvent<
    CpEvent,
    CpState,
    Event,
    Child,
> where Child::Event: ParentEvent<Event> + PartialEq {
    type Event = Child::Event;

    type ComponentState = Child::ComponentState;

    type AggregateChildrenState = WithEventState<Child::Event, Child::AggregateChildrenState>;

    type BuildOutput = WithBubbleEventData<
        CpEvent,
        CpState,
        Event,
        Child::BuildOutput,
    >;

    open spec fn wf(&self) -> bool {
        self.element.wf()
    }

    /// The wrapped element is built on the state kept for it. No event is
    /// waiting to be passed on after a build.
    open spec fn built(
        self,
        prev_state: (
            Option<Child::Event>,
            <Child::AggregateChildrenState as AggregateState>::Model,
        ),
    ) -> (
        WithBubbleEventData<
            CpEvent,
            CpState,
            Event,
            Child::BuildOutput,
        >,
        (Option<Child::Event>, <Child::AggregateChildrenState as AggregateState>::Model),
    ) {
        let (element, state) = self.element.built(prev_state.1);
        (
            WithBubbleEventData {
                element,
                _metadata: Metadata::token(),
                _marker: PhantomData,
            },
            (None, state),
        )
    }

    fn build(self, prev_state: Self::AggregateChildrenState) -> (out: (
        Self::BuildOutput,
        Self::AggregateChildrenState,
    ))
        ensures
            out.0.element == self.element.built(prev_state.model().1).0,
            out.1.model() == (
                Option::<Child::Event>::None,
                self.element.built(prev_state.model().1).1,
            ),
            out.0.element.wf(),
    {
        let (element, state) = self.element.build(prev_state.children);
        (
            WithBubbleEventData {
                element,
                _metadata: Metadata::new(),
                _marker: PhantomData,
            },
            WithEventState { passed_on: None, children: state },
        )
    }

    open spec fn component_state(
        state: &(Option<Child::Event>, <Child::AggregateChildrenState as AggregateState>::Model),
    ) -> Option<&Child::ComponentState> {
        Child::component_state(&state.1)
    }

    fn get_component_state(state: &Self::AggregateChildrenState) -> (local: Option<
        &Child::ComponentState,
    >)
        ensures
            local == Child::component_state(&state.model().1),
    {
        Child::get_component_state(&state.children)
    }
}

impl<
    CpEvent: ParentEvent<Event>,
    CpState,
    Event,
    Child: VirtualDom<CpEvent, CpState>,
> VirtualDom<CpEvent, CpState> for WithBubbleEventData<
    CpEvent,
    CpState,
    Event,
    Child,
> where Child::Event: ParentEvent<Event> {
    type Event = Child::Event;

    type AggregateChildrenState = WithEventState<Child::Event, Child::AggregateChildrenState>;

    type TargetWidgetSeq = Child::TargetWidgetSeq;

    open spec fn wf(&self) -> bool {
        self.element.wf()
    }

    open spec fn mounted(&self) -> Child::TargetWidgetSeq {
        self.element.mounted()
    }

    fn init_tree(&self) -> (widget_seq: Child::TargetWidgetSeq)
        ensures
            widget_seq == self.element.mounted(),
    {
        self.element.init_tree()
    }

    open spec fn reconciled(
        &self,
        other: &Self,
        widget_seq: Child::TargetWidgetSeq,
        host: (EventCtx, AppData, Env),
    ) -> (Child::TargetWidgetSeq, (EventCtx, AppData, Env)) {
        self.element.reconciled(&other.element, widget_seq, host)
    }

    fn reconcile(
        &self,
        other: &Self,
        widget_seq: &mut Child::TargetWidgetSeq,
        ctx: &mut ReconcileCtx,
    )
        ensures
            (*final(widget_seq), final(ctx)@) == self.element.reconciled(
                &other.element,
                *old(widget_seq),
                old(ctx)@,
            ),
    {
        self.element.reconcile(&other.element, widget_seq, ctx);
    }

    open spec fn shown_by(&self, widget_seq: Child::TargetWidgetSeq) -> bool {
        self.element.shown_by(widget_seq)
    }

    fn is_shown_by(&self, widget_seq: &Child::TargetWidgetSeq) -> (shown: bool)
        ensures
            shown == self.element.shown_by(*widget_seq),
    {
        self.element.is_shown_by(widget_seq)
    }

    proof fn lemma_mounted_shows(&self) {
        self.element.lemma_mounted_shows();
    }

    proof fn lemma_reconciled_shows(
        &self,
        other: &Self,
        widget_seq: Child::TargetWidgetSeq,
        host: (EventCtx, AppData, Env),
    ) {
        self.element.lemma_reconciled_shows(&other.element, widget_seq, host);
    }

    proof fn lemma_reconcile_unchanged(
        &self,
        widget_seq: Child::TargetWidgetSeq,
        host: (EventCtx, AppData, Env),
    ) {
        self.element.lemma_reconcile_unchanged(widget_seq, host);
    }

    open spec fn event_processed(
        &self,
        pass: EventPass<
            CpEvent,
            CpState,
            (Option<Child::Event>, <Child::AggregateChildrenState as AggregateState>::Model),
            Child::TargetWidgetSeq,
        >,
    ) -> EventPass<
        CpEvent,
        CpState,
        (Option<Child::Event>, <Child::AggregateChildrenState as AggregateState>::Model),
        Child::TargetWidgetSeq,
    > {
        bubble_pass(self.element, pass)
    }

    fn process_event(
        &self,
        comp_ctx: &mut ProcessEventCtx<CpEvent, CpState>,
        children_state: &mut Self::AggregateChildrenState,
        widget_seq: &mut Self::TargetWidgetSeq,
        cx: &mut GlobalEventCx,
    )
        ensures
            (EventPass {
                queue: final(comp_ctx)@.0,
                state: final(comp_ctx)@.1,
                children_state: final(children_state).model(),
                widget_seq: *final(widget_seq),
                cx: *final(cx),
            }) == bubble_pass(
                self.element,
                (EventPass {
                    queue: old(comp_ctx)@.0,
                    state: old(comp_ctx)@.1,
                    children_state: old(children_state).model(),
                    widget_seq: *old(widget_seq),
                    cx: *old(cx),
                }),
            ),
    {
        self.element.process_event(comp_ctx, &mut children_state.children, widget_seq, cx);
        let local_event = self.element.process_local_event(
            &mut children_state.children,
            widget_seq,
            cx,
        );
        children_state.passed_on = None;
        if let Some(local_event) = local_event {
            match local_event.into_child_event() {
                Ok(event) => {
                    comp_ctx.event_queue.push_back(CpEvent::from_child_event(event));
                },
                Err(local_event) => {
                    children_state.passed_on = Some(local_event);
                },
            }
        }
    }

    /// The element hands out the event that it passed on in the last pass.
    open spec fn local_event(
        &self,
        children_state: (
            Option<Child::Event>,
            <Child::AggregateChildrenState as AggregateState>::Model,
        ),
        widget_seq: Child::TargetWidgetSeq,
        cx: GlobalEventCx,
    ) -> LocalEventPass<
        Child::Event,
        (Option<Child::Event>, <Child::AggregateChildrenState as AggregateState>::Model),
        Child::TargetWidgetSeq,
    > {
        taken(children_state, widget_seq, cx)
    }

    fn process_local_event(
        &self,
        children_state: &mut Self::AggregateChildrenState,
        _widget_seq: &mut Child::TargetWidgetSeq,
        _cx: &mut GlobalEventCx,
    ) -> (event: Option<Child::Event>)
        ensures
            (LocalEventPass {
                event,
                children_state: final(children_state).model(),
                widget_seq: *final(_widget_seq),
                cx: *final(_cx),
            }) == taken(old(children_state).model(), *old(_widget_seq), *old(_cx)),
    {
        children_state.passed_on.take()
    }
}

/// What the contracts say of an element that bubbles events up, spelled out for a
/// caller that holds the element's parts themselves.
pub proof fn lemma_bubble_element_defined<
    CpEvent: ParentEvent<Event>,
    CpState,
    Event,
    Child: Element<CpEvent, CpState>,
>(
    element: WithBubbleEvent<CpEvent, CpState, Event, Child>,
    prev_state: (Option<Child::Event>, <Child::AggregateChildrenState as AggregateState>::Model),
) where Child::Event: ParentEvent<Event> + PartialEq
    ensures
        element.wf() == element.element.wf(),
        element.built(prev_state).0.element == element.element.built(prev_state.1).0,
        element.built(prev_state).1 == (
            Option::<Child::Event>::None,
            element.element.built(prev_state.1).1,
        ),
{
}

/// What the contracts say of a node that bubbles events up, spelled out for a caller
/// that holds the node's parts themselves.
pub proof fn lemma_bubble_node_defined<
    CpEvent: ParentEvent<Event>,
    CpState,
    Event,
    Child: VirtualDom<CpEvent, CpState>,
>(
    node: WithBubbleEventData<CpEvent, CpState, Event, Child>,
    other: WithBubbleEventData<CpEvent, CpState, Event, Child>,
    host: (EventCtx, AppData, Env),
    pass: EventPass<
        CpEvent,
        CpState,
        (Option<Child::Event>, <Child::AggregateChildrenState as AggregateState>::Model),
        Child::TargetWidgetSeq,
    >,
) where Child::Event: ParentEvent<Event>
    ensures
        node.wf() == node.element.wf(),
        node.mounted() == node.element.mounted(),
        node.shown_by(pass.widget_seq) == node.element.shown_by(pass.widget_seq),
        node.reconciled(&other, pass.widget_seq, host) == node.element.reconciled(
            &other.element,
            pass.widget_seq,
            host,
        ),
        node.event_processed(pass) == bubble_pass(node.element, pass),
        node.local_event(pass.children_state, pass.widget_seq, pass.cx) == taken(
            pass.children_state,
            pass.widget_seq,
            pass.cx,
        ),
{
}

/// Bubbling is faithful. Where the wrapped node raises an event of the
/// declared type, exactly that event joins the component's queue, behind
/// what was there, and can be taken out of the component's event type as it
/// went in. Where the node raises no such event, nothing joins the queue,
/// and what it raised is handed out by the element as it is.
pub proof fn lemma_bubble_fidelity<
    CpEvent: ParentEvent<Event>,
    CpState,
    Event,
    Child: VirtualDom<CpEvent, CpState>,
>(
    node: WithBubbleEventData<CpEvent, CpState, Event, Child>,
    pass: EventPass<
        CpEvent,
        CpState,
        (Option<Child::Event>, <Child::AggregateChildrenState as AggregateState>::Model),
        Child::TargetWidgetSeq,
    >,
) where Child::Event: ParentEvent<Event>
    ensures
        ({
            let below = below(node.element, pass);
            let raised = raised(node.element, pass).event;
            let after = node.event_processed(pass);
            let handed_out = node.local_event(after.children_state, after.widget_seq, after.cx);
            &&& after.state == below.state
            &&& match declared_event::<Child::Event, Event>(raised) {
                Some(event) => {
                    &&& after.queue == below.queue.push(CpEvent::injected(event))
                    &&& after.queue.last().projected() == Some(event)
                    &&& handed_out.event is None
                },
                None => {
                    &&& after.queue == below.queue
                    &&& handed_out.event == raised
                },
            }
        }),
{
    match declared_event::<Child::Event, Event>(raised(node.element, pass).event) {
        Some(event) => {
            CpEvent::lemma_lossless(event);
        },
        None => {},
    }
}

} // verus!
