use vstd::prelude::*;
use crate::element_tree::{
    after_passes, describe_as, described, AggregateState, Describe, Element, EventPass,
    LocalEventPass, Metadata, ProcessEventCtx, ReconcileCtx, VirtualDom,
};
use crate::elements::with_event::{
    below, callback_input, declared_event, drops_all, is_function, passed_on, raised, result_of,
    returns_on, taken, ParentEvent, WithEventState,
};
use crate::glue::{AppData, Env, EventCtx, GlobalEventCx};
use std::marker::PhantomData;

verus! {

/// The event that `callback` maps what a node raised to, if the node raised
/// an event of the declared type and the callback does not drop it.
pub open spec fn mapped_event<
    State,
    Event: ParentEvent<EventParam>,
    EventParam,
    EventReturn,
    Cb: Fn(&State, EventParam) -> Option<EventReturn>,
>(callback: Cb, state: State, raised: Option<Event>) -> Option<EventReturn> {
    match declared_event::<Event, EventParam>(raised) {
        Some(event) => result_of(callback, state, event),
        None => None,
    }
}

/// What a pass leaves behind at an element whose callback maps events. The
/// wrapped node processes the event first. Then it is asked for its own
/// event. Where that is one of the declared type, it is consumed: where the
/// callback maps it to an event, that event joins the component's queue at
/// the back, and where the callback returns `None`, nothing does. The
/// component's local state stays as the wrapped node left it. Any other
/// event is passed on unchanged.
pub open spec fn map_pass<
    CpEvent: ParentEvent<EventReturn>,
    CpState,
    EventParam,
    EventReturn,
    Child: VirtualDom<CpEvent, CpState>,
    Cb: Fn(&CpState, EventParam) -> Option<EventReturn>,
>(
    child: Child,
    callback: Cb,
    pass: EventPass<
        CpEvent,
        CpState,
        (Option<Child::Event>, <Child::AggregateChildrenState as AggregateState>::Model),
        Child::TargetWidgetSeq,
    >,
) -> EventPass<
    CpEvent,
    CpState,
    (Option<Child::Event>, <Child::AggregateChildrenState as AggregateState>::Model),
    Child::TargetWidgetSeq,
> where Child::Event: ParentEvent<EventParam> {
    let below = below(child, pass);
    let raised = raised(child, pass);
    EventPass {
        queue: match mapped_event(callback, below.state, raised.event) {
            Some(event) => below.queue.push(CpEvent::injected(event)),
            None => below.queue,
        },
        state: below.state,
        children_state: (
            passed_on::<Child::Event, EventParam>(raised.event),
            raised.children_state,
        ),
        widget_seq: raised.widget_seq,
        cx: raised.cx,
    }
}

/// An element whose events of type `EventParam` are turned into events of
/// the component it stands in, or dropped. Its other events pass through
/// unchanged.
pub struct WithMapEvent<CpEvent, CpState, EventParam, EventReturn, Child, Cb> {
    pub element: Child,
    pub callback: Cb,
    pub _metadata: Metadata<CpEvent, CpState>,
    pub _marker: PhantomData<(EventParam, EventReturn)>,
}

/// The virtual-DOM node of [`WithMapEvent`].
pub struct WithMapEventData<CpEvent, CpState, EventParam, EventReturn, Child, Cb> {
    pub element: Child,
    pub callback: Cb,
    pub _metadata: Metadata<CpEvent, CpState>,
    pub _marker: PhantomData<(EventParam, EventReturn)>,
}

impl<CpEvent, CpState, EventParam, EventReturn, Child: Clone, Cb: Clone> Clone for WithMapEvent<
    CpEvent,
    CpState,
    EventParam,
    EventReturn,
    Child,
    Cb,
> {
    fn clone(&self) -> (copy: Self)
        ensures
            cloned(self.element, copy.element),
            cloned(self.callback, copy.callback),
    {
        WithMapEvent {
            element: self.element.clone(),
            callback: self.callback.clone(),
            _metadata: Metadata::new(),
            _marker: PhantomData,
        }
    }
}

impl<CpEvent, CpState, EventParam, EventReturn, Child: Describe, Cb> Describe for WithMapEvent<
    CpEvent,
    CpState,
    EventParam,
    EventReturn,
    Child,
    Cb,
> {
    open spec fn description(&self) -> Seq<char> {
        described("WithMapEvent"@, self.element.description())
    }

    fn describe(&self) -> (text: String) {
        describe_as("WithMapEvent", self.element.describe())
    }
}

impl<CpEvent, CpState, EventParam, EventReturn, Child: Describe, Cb> Describe for WithMapEventData<
    CpEvent,
    CpState,
    EventParam,
    EventReturn,
    Child,
    Cb,
> {
    open spec fn description(&self) -> Seq<char> {
        described("WithMapEventData"@, self.element.description())
    }

    fn describe(&self) -> (text: String) {
        describe_as("WithMapEventData", self.element.describe())
    }
}

impl<
    CpEvent: ParentEvent<EventReturn>,
    CpState,
    EventParam,
    EventReturn,
    Child: Element<CpEvent, CpState>,
    Cb: Fn(&CpState, EventParam) -> Option<EventReturn>,
> Element<CpEvent, CpState> for WithMapEvent<
    CpEvent,
    CpState,
    EventParam,
    EventReturn,
    Child,
    Cb,
> where Child::Event: ParentEvent<EventParam> + PartialEq {
    type Event = Child::Event;

    type ComponentState = Child::ComponentState;

    type AggregateChildrenState = WithEventState<Child::Event, Child::AggregateChildrenState>;

    type BuildOutput = WithMapEventData<
        CpEvent,
        CpState,
        EventParam,
        EventReturn,
        Child::BuildOutput,
        Cb,
    >;

    open spec fn wf(&self) -> bool {
        &&& self.element.wf()
        &&& is_function(self.callback)
    }

    /// The wrapped element is built on the state kept for it. No event is
    /// waiting to be passed on after a build.
    open spec fn built(
        self,
        prev_state: (
            Option<Child::Event>,
            <Child::AggregateChildrenState as AggregateState>::Model,
        ),
    ) -> (
        WithMapEventData<
            CpEvent,
            CpState,
            EventParam,
            EventReturn,
            Child::BuildOutput,
            Cb,
        >,
        (Option<Child::Event>, <Child::AggregateChildrenState as AggregateState>::Model),
    ) {
        let (element, state) = self.element.built(prev_state.1);
        (
            WithMapEventData {
                element,
                callback: self.callback,
                _metadata: Metadata::token(),
                _marker: PhantomData,
            },
            (None, state),
        )
    }

    fn build(self, prev_state: Self::AggregateChildrenState) -> (out: (
        Self::BuildOutput,
        Self::AggregateChildrenState,
    ))
        ensures
            out.0.element == self.element.built(prev_state.model().1).0,
            out.0.callback == self.callback,
            out.1.model() == (
                Option::<Child::Event>::None,
                self.element.built(prev_state.model().1).1,
            ),
            out.0.element.wf(),
    {
        let (element, state) = self.element.build(prev_state.children);
        (
            WithMapEventData {
                element,
                callback: self.callback,
                _metadata: Metadata::new(),
                _marker: PhantomData,
            },
            WithEventState { passed_on: None, children: state },
        )
    }

    open spec fn component_state(
        state: &(Option<Child::Event>, <Child::AggregateChildrenState as AggregateState>::Model),
    ) -> Option<&Child::ComponentState> {
        Child::component_state(&state.1)
    }

    fn get_component_state(state: &Self::AggregateChildrenState) -> (local: Option<
        &Child::ComponentState,
    >)
        ensures
            local == Child::component_state(&state.model().1),
    {
        Child::get_component_state(&state.children)
    }
}

impl<
    CpEvent: ParentEvent<EventReturn>,
    CpState,
    EventParam,
    EventReturn,
    Child: VirtualDom<CpEvent, CpState>,
    Cb: Fn(&CpState, EventParam) -> Option<EventReturn>,
> VirtualDom<CpEvent, CpState> for WithMapEventData<
    CpEvent,
    CpState,
    EventParam,
    EventReturn,
    Child,
    Cb,
> where Child::Event: ParentEvent<EventParam> {
    type Event = Child::Event;

    type AggregateChildrenState = WithEventState<Child::Event, Child::AggregateChildrenState>;

    type TargetWidgetSeq = Child::TargetWidgetSeq;

    open spec fn wf(&self) -> bool {
        &&& self.element.wf()
        &&& is_function(self.callback)
    }

    open spec fn mounted(&self) -> Child::TargetWidgetSeq {
        self.element.mounted()
    }

    fn init_tree(&self) -> (widget_seq: Child::TargetWidgetSeq)
        ensures
            widget_seq == self.element.mounted(),
    {
        self.element.init_tree()
    }

    open spec fn reconciled(
        &self,
        other: &Self,
        widget_seq: Child::TargetWidgetSeq,
        host: (EventCtx, AppData, Env),
    ) -> (Child::TargetWidgetSeq, (EventCtx, AppData, Env)) {
        self.element.reconciled(&other.element, widget_seq, host)
    }

    fn reconcile(
        &self,
        other: &Self,
        widget_seq: &mut Child::TargetWidgetSeq,
        ctx: &mut ReconcileCtx,
    )
        ensures
            (*final(widget_seq), final(ctx)@) == self.element.reconciled(
                &other.element,
                *old(widget_seq),
                old(ctx)@,
            ),
    {
        self.element.reconcile(&other.element, widget_seq, ctx);
    }

    open spec fn shown_by(&self, widget_seq: Child::TargetWidgetSeq) -> bool {
        self.element.shown_by(widget_seq)
    }

    fn is_shown_by(&self, widget_seq: &Child::TargetWidgetSeq) -> (shown: bool)
        ensures
            shown == self.element.shown_by(*widget_seq),
    {
        self.element.is_shown_by(widget_seq)
    }

    proof fn lemma_mounted_shows(&self) {
        self.element.lemma_mounted_shows();
    }

    proof fn lemma_reconciled_shows(
        &self,
        other: &Self,
        widget_seq: Child::TargetWidgetSeq,
        host: (EventCtx, AppData, Env),
    ) {
        self.element.lemma_reconciled_shows(&other.element, widget_seq, host);
    }

    proof fn lemma_reconcile_unchanged(
        &self,
        widget_seq: Child::TargetWidgetSeq,
        host: (EventCtx, AppData, Env),
    ) {
        self.element.lemma_reconcile_unchanged(widget_seq, host);
    }

    open spec fn event_processed(
        &self,
        pass: EventPass<
            CpEvent,
            CpState,
            (Option<Child::Event>, <Child::AggregateChildrenState as AggregateState>::Model),
            Child::TargetWidgetSeq,
        >,
    ) -> EventPass<
        CpEvent,
        CpState,
        (Option<Child::Event>, <Child::AggregateChildrenState as AggregateState>::Model),
        Child::TargetWidgetSeq,
    > {
        map_pass(self.element, self.callback, pass)
    }

    fn process_event(
        &self,
        comp_ctx: &mut ProcessEventCtx<CpEvent, CpState>,
        children_state: &mut Self::AggregateChildrenState,
        widget_seq: &mut Self::TargetWidgetSeq,
        cx: &mut GlobalEventCx,
    )
        ensures
            callback_input::<CpEvent, CpState, EventParam, Child>(
                self.element,
                (EventPass {
                    queue: old(comp_ctx)@.0,
                    state: old(comp_ctx)@.1,
                    children_state: old(children_state).model(),
                    widget_seq: *old(widget_seq),
                    cx: *old(cx),
                }),
            ) matches Some(input) ==> call_ensures(
                self.callback,
                (&input.0, input.1),
                result_of(self.callback, input.0, input.1),
            ),
            (EventPass {
                queue: final(comp_ctx)@.0,
                state: final(comp_ctx)@.1,
                children_state: final(children_state).model(),
                widget_seq: *final(widget_seq),
                cx: *final(cx),
            }) == map_pass(
                self.element,
                self.callback,
                (EventPass {
                    queue: old(comp_ctx)@.0,
                    state: old(comp_ctx)@.1,
                    children_state: old(children_state).model(),
                    widget_seq: *old(widget_seq),
                    cx: *old(cx),
                }),
            ),
    {
        self.element.process_event(comp_ctx, &mut children_state.children, widget_seq, cx);
        let local_event = self.element.process_local_event(
            &mut children_state.children,
            widget_seq,
            cx,
        );
        children_state.passed_on = None;
        if let Some(local_event) = local_event {
            match local_event.into_child_event() {
                Ok(event) => {
                    if let Some(event) = (self.callback)(&*comp_ctx.state, event) {
                        comp_ctx.event_queue.push_back(CpEvent::from_child_event(event));
                    }
                },
                Err(local_event) => {
                    children_state.passed_on = Some(local_event);
                },
            }
        }
    }

    /// The element hands out the event that it passed on in the last pass.
    open spec fn local_event(
        &self,
        children_state: (
            Option<Child::Event>,
            <Child::AggregateChildrenState as AggregateState>::Model,
        ),
        widget_seq: Child::TargetWidgetSeq,
        cx: GlobalEventCx,
    ) -> LocalEventPass<
        Child::Event,
        (Option<Child::Event>, <Child::AggregateChildrenState as AggregateState>::Model),
        Child::TargetWidgetSeq,
    > {
        taken(children_state, widget_seq, cx)
    }

    fn process_local_event(
        &self,
        children_state: &mut Self::AggregateChildrenState,
        _widget_seq: &mut Child::TargetWidgetSeq,
        _cx: &mut GlobalEventCx,
    ) -> (event: Option<Child::Event>)
        ensures
            (LocalEventPass {
                event,
                children_state: final(children_state).model(),
                widget_seq: *final(_widget_seq),
                cx: *final(_cx),
            }) == taken(old(children_state).model(), *old(_widget_seq), *old(_cx)),
    {
        children_state.passed_on.take()
    }
}

/// What the contracts say of an element that holds a mapping callback, spelled out for a
/// caller that holds the element's parts themselves.
pub proof fn lemma_map_element_defined<
    CpEvent: ParentEvent<EventReturn>,
    CpState,
    EventParam,
    EventReturn,
    Child: Element<CpEvent, CpState>,
    Cb: Fn(&CpState, EventParam) -> Option<EventReturn>,
>(
    element: WithMapEvent<CpEvent, CpState, EventParam, EventReturn, Child, Cb>,
    prev_state: (Option<Child::Event>, <Child::AggregateChildrenState as AggregateState>::Model),
) where Child::Event: ParentEvent<EventParam> + PartialEq
    ensures
        element.wf() == (element.element.wf() && is_function(element.callback)),
        element.built(prev_state).0.element == element.element.built(prev_state.1).0,
        element.built(prev_state).0.callback == element.callback,
        element.built(prev_state).1 == (
            Option::<Child::Event>::None,
            element.element.built(prev_state.1).1,
        ),
{
}

/// What the contracts say of a node that holds a mapping callback, spelled out for a caller
/// that holds the node's parts themselves.
pub proof fn lemma_map_node_defined<
    CpEvent: ParentEvent<EventReturn>,
    CpState,
    EventParam,
    EventReturn,
    Child: VirtualDom<CpEvent, CpState>,
    Cb: Fn(&CpState, EventParam) -> Option<EventReturn>,
>(
    node: WithMapEventData<CpEvent, CpState, EventParam, EventReturn, Child, Cb>,
    other: WithMapEventData<CpEvent, CpState, EventParam, EventReturn, Child, Cb>,
    host: (EventCtx, AppData, Env),
    pass: EventPass<
        CpEvent,
        CpState,
        (Option<Child::Event>, <Child::AggregateChildrenState as AggregateState>::Model),
        Child::TargetWidgetSeq,
    >,
) where Child::Event: ParentEvent<EventParam>
    ensures
        node.wf() == (node.element.wf() && is_function(node.callback)),
        node.mounted() == node.element.mounted(),
        node.shown_by(pass.widget_seq) == node.element.shown_by(pass.widget_seq),
        node.reconciled(&other, pass.widget_seq, host) == node.element.reconciled(
            &other.element,
            pass.widget_seq,
            host,
        ),
        node.event_processed(pass) == map_pass(node.element, node.callback, pass),
        node.local_event(pass.children_state, pass.widget_seq, pass.cx) == taken(
            pass.children_state,
            pass.widget_seq,
            pass.cx,
        ),
{
}

/// A mapping that drops every event suppresses them all: where the callback
/// returns nothing but `None`, and returns on what the pass hands it, the
/// component's queue and local state come out of the element as the wrapped
/// node left them, whatever the node raised.
pub proof fn lemma_map_suppression<
    CpEvent: ParentEvent<EventReturn>,
    CpState,
    EventParam,
    EventReturn,
    Child: VirtualDom<CpEvent, CpState>,
    Cb: Fn(&CpState, EventParam) -> Option<EventReturn>,
>(
    node: WithMapEventData<CpEvent, CpState, EventParam, EventReturn, Child, Cb>,
    pass: EventPass<
        CpEvent,
        CpState,
        (Option<Child::Event>, <Child::AggregateChildrenState as AggregateState>::Model),
        Child::TargetWidgetSeq,
    >,
) where Child::Event: ParentEvent<EventParam>
    requires
        drops_all(node.callback),
        callback_input::<CpEvent, CpState, EventParam, Child>(node.element, pass) matches Some(
            input,
        ) ==> returns_on(node.callback, input.0, input.1),
    ensures
        node.event_processed(pass).queue == below(node.element, pass).queue,
        node.event_processed(pass).state == below(node.element, pass).state,
{
    let below = below(node.element, pass);
    match declared_event::<Child::Event, EventParam>(raised(node.element, pass).event) {
        Some(event) => {
            assert(returns_on(node.callback, below.state, event));
            assert(result_of(node.callback, below.state, event) is None);
        },
        None => {},
    }
}

/// However many events the wrapped node raises, and however many passes
/// take them, a mapping that drops every event lets none through: where the
/// wrapped node itself leaves the component's queue alone, the queue is after
/// any number of passes what it was before them.
pub proof fn lemma_map_suppression_over_passes<
    CpEvent: ParentEvent<EventReturn>,
    CpState,
    EventParam,
    EventReturn,
    Child: VirtualDom<CpEvent, CpState>,
    Cb: Fn(&CpState, EventParam) -> Option<EventReturn>,
>(
    node: WithMapEventData<CpEvent, CpState, EventParam, EventReturn, Child, Cb>,
    pass: EventPass<
        CpEvent,
        CpState,
        (Option<Child::Event>, <Child::AggregateChildrenState as AggregateState>::Model),
        Child::TargetWidgetSeq,
    >,
    n: nat,
) where Child::Event: ParentEvent<EventParam>
    requires
        drops_all(node.callback),
        forall|state: CpState, event: EventParam| #[trigger]
            returns_on(node.callback, state, event),
        forall|
            before: EventPass<
                CpEvent,
                CpState,
                <Child::AggregateChildrenState as AggregateState>::Model,
                Child::TargetWidgetSeq,
            >,
        | (#[trigger] node.element.event_processed(before)).queue == before.queue,
    ensures
        after_passes(node, pass, n).queue == pass.queue,
    decreases n,
{
    if n > 0 {
        let before = after_passes(node, pass, (n - 1) as nat);
        lemma_map_suppression_over_passes(node, pass, (n - 1) as nat);
        lemma_map_suppression(node, before);
    }
}

} // verus!
