use vstd::prelude::*;
use crate::element_tree::{
    describe_as, described, AggregateState, Describe, Element, EventPass, LocalEventPass,
    Metadata, ProcessEventCtx, ReconcileCtx, VirtualDom,
};
use crate::elements::with_event::{
    below, callback_input, declared_event, is_function, passed_on, raised, result_of, taken,
    ParentEvent, WithEventState,
};
use crate::glue::{AppData, Env, EventCtx, GlobalEventCx};
use std::marker::PhantomData;

verus! {

/// What a pass leaves behind at an element whose callback changes the local
/// state. The wrapped node processes the event first. Then it is asked for
/// its own event. Where that is one of the declared type, it is consumed:
/// the callback gives the component's next local state, and nothing is put
/// in the component's queue. Any other event is passed on unchanged.
pub open spec fn callback_pass<
    CpEvent,
    CpState,
    EventParam,
    Child: VirtualDom<CpEvent, CpState>,
    Cb: Fn(&CpState, EventParam) -> CpState,
>(
    child: Child,
    callback: Cb,
    pass: EventPass<
        CpEvent,
        CpState,
        (Option<Child::Event>, <Child::AggregateChildrenState as AggregateState>::Model),
        Child::TargetWidgetSeq,
    >,
) -> EventPass<
    CpEvent,
    CpState,
    (Option<Child::Event>, <Child::AggregateChildrenState as AggregateState>::Model),
    Child::TargetWidgetSeq,
> where Child::Event: ParentEvent<EventParam> {
    let below = below(child, pass);
    let raised = raised(child, pass);
    EventPass {
        queue: below.queue,
        state: match declared_event::<Child::Event, EventParam>(raised.event) {
            Some(event) => result_of(callback, below.state, event),
            None => below.state,
        },
        children_state: (
            passed_on::<Child::Event, EventParam>(raised.event),
            raised.children_state,
        ),
        widget_seq: raised.widget_seq,
        cx: raised.cx,
    }
}

/// An element whose events of type `EventParam` change the local state of
/// the component it stands in. Its other events pass through unchanged.
pub struct WithCallbackEvent<CpEvent, CpState, EventParam, Child, Cb> {
    pub element: Child,
    pub callback: Cb,
    pub _metadata: Metadata<CpEvent, CpState>,
    pub _marker: PhantomData<EventParam>,
}

/// The virtual-DOM node of [`WithCallbackEvent`].
pub struct WithCallbackEventData<CpEvent, CpState, EventParam, Child, Cb> {
    pub element: Child,
    pub callback: Cb,
    pub _metadata: Metadata<CpEvent, CpState>,
    pub _marker: PhantomData<EventParam>,
}

impl<CpEvent, CpState, EventParam, Child: Clone, Cb: Clone> Clone for WithCallbackEvent<
    CpEvent,
    CpState,
    EventParam,
    Child,
    Cb,
> {
    fn clone(&self) -> (copy: Self)
        ensures
            cloned(self.element, copy.element),
            cloned(self.callback, copy.callback),
    {
        WithCallbackEvent {
            element: self.element.clone(),
            callback: self.callback.clone(),
            _metadata: Metadata::new(),
            _marker: PhantomData,
        }
    }
}

impl<CpEvent, CpState, EventParam, Child: Describe, Cb> Describe for WithCallbackEvent<
    CpEvent,
    CpState,
    EventParam,
    Child,
    Cb,
> {
    open spec fn description(&self) -> Seq<char> {
        described("WithCallbackEvent"@, self.element.description())
    }

    fn describe(&self) -> (text: String) {
        describe_as("WithCallbackEvent", self.element.describe())
    }
}

impl<CpEvent, CpState, EventParam, Child: Describe, Cb> Describe for WithCallbackEventData<
    CpEvent,
    CpState,
    EventParam,
    Child,
    Cb,
> {
    open spec fn description(&self) -> Seq<char> {
        described("WithCallbackEventData"@, self.element.description())
    }

    fn describe(&self) -> (text: String) {
        describe_as("WithCallbackEventData", self.element.describe())
    }
}

impl<
    CpEvent,
    CpState,
    EventParam,
    Child: Element<CpEvent, CpState>,
    Cb: Fn(&CpState, EventParam) -> CpState,
> Element<CpEvent, CpState> for WithCallbackEvent<
    CpEvent,
    CpState,
    EventParam,
    Child,
    Cb,
> where Child::Event: ParentEvent<EventParam> + PartialEq {
    type Event = Child::Event;

    type ComponentState = Child::ComponentState;

    type AggregateChildrenState = WithEventState<Child::Event, Child::AggregateChildrenState>;

    type BuildOutput = WithCallbackEventData<
        CpEvent,
        CpState,
        EventParam,
        Child::BuildOutput,
        Cb,
    >;

    open spec fn wf(&self) -> bool {
        &&& self.element.wf()
        &&& is_function(self.callback)
    }

    /// The wrapped element is built on the state kept for it. No event is
    /// waiting to be passed on after a build.
    open spec fn built(
        self,
        prev_state: (
            Option<Child::Event>,
            <Child::AggregateChildrenState as AggregateState>::Model,
        ),
    ) -> (
        WithCallbackEventData<
            CpEvent,
            CpState,
            EventParam,
            Child::BuildOutput,
            Cb,
        >,
        (Option<Child::Event>, <Child::AggregateChildrenState as AggregateState>::Model),
    ) {
        let (element, state) = self.element.built(prev_state.1);
        (
            WithCallbackEventData {
                element,
                callback: self.callback,
                _metadata: Metadata::token(),
                _marker: PhantomData,
            },
            (None, state),
        )
    }

    fn build(self, prev_state: Self::AggregateChildrenState) -> (out: (
        Self::BuildOutput,
        Self::AggregateChildrenState,
    ))
        ensures
            out.0.element == self.element.built(prev_state.model().1).0,
            out.0.callback == self.callback,
            out.1.model() == (
                Option::<Child::Event>::None,
                self.element.built(prev_state.model().1).1,
            ),
            out.0.element.wf(),
    {
        let (element, state) = self.element.build(prev_state.children);
        (
            WithCallbackEventData {
                element,
                callback: self.callback,
                _metadata: Metadata::new(),
                _marker: PhantomData,
            },
            WithEventState { passed_on: None, children: state },
        )
    }

    open spec fn component_state(
        state: &(Option<Child::Event>, <Child::AggregateChildrenState as AggregateState>::Model),
    ) -> Option<&Child::ComponentState> {
        Child::component_state(&state.1)
    }

    fn get_component_state(state: &Self::AggregateChildrenState) -> (local: Option<
        &Child::ComponentState,
    >)
        ensures
            local == Child::component_state(&state.model().1),
    {
        Child::get_component_state(&state.children)
    }
}

impl<
    CpEvent,
    CpState,
    EventParam,
    Child: VirtualDom<CpEvent, CpState>,
    Cb: Fn(&CpState, EventParam) -> CpState,
> VirtualDom<CpEvent, CpState> for WithCallbackEventData<
    CpEvent,
    CpState,
    EventParam,
    Child,
    Cb,
> where Child::Event: ParentEvent<EventParam> {
    type Event = Child::Event;

    type AggregateChildrenState = WithEventState<Child::Event, Child::AggregateChildrenState>;

    type TargetWidgetSeq = Child::TargetWidgetSeq;

    open spec fn wf(&self) -> bool {
        &&& self.element.wf()
        &&& is_function(self.callback)
    }

    open spec fn mounted(&self) -> Child::TargetWidgetSeq {
        self.element.mounted()
    }

    fn init_tree(&self) -> (widget_seq: Child::TargetWidgetSeq)
        ensures
            widget_seq == self.element.mounted(),
    {
        self.element.init_tree()
    }

    open spec fn reconciled(
        &self,
        other: &Self,
        widget_seq: Child::TargetWidgetSeq,
        host: (EventCtx, AppData, Env),
    ) -> (Child::TargetWidgetSeq, (EventCtx, AppData, Env)) {
        self.element.reconciled(&other.element, widget_seq, host)
    }

    fn reconcile(
        &self,
        other: &Self,
        widget_seq: &mut Child::TargetWidgetSeq,
        ctx: &mut ReconcileCtx,
    )
        ensures
            (*final(widget_seq), final(ctx)@) == self.element.reconciled(
                &other.element,
                *old(widget_seq),
                old(ctx)@,
            ),
    {
        self.element.reconcile(&other.element, widget_seq, ctx);
    }

    open spec fn shown_by(&self, widget_seq: Child::TargetWidgetSeq) -> bool {
        self.element.shown_by(widget_seq)
    }

    fn is_shown_by(&self, widget_seq: &Child::TargetWidgetSeq) -> (shown: bool)
        ensures
            shown == self.element.shown_by(*widget_seq),
    {
        self.element.is_shown_by(widget_seq)
    }

    proof fn lemma_mounted_shows(&self) {
        self.element.lemma_mounted_shows();
    }

    proof fn lemma_reconciled_shows(
        &self,
        other: &Self,
        widget_seq: Child::TargetWidgetSeq,
        host: (EventCtx, AppData, Env),
    ) {
        self.element.lemma_reconciled_shows(&other.element, widget_seq, host);
    }

    proof fn lemma_reconcile_unchanged(
        &self,
        widget_seq: Child::TargetWidgetSeq,
        host: (EventCtx, AppData, Env),
    ) {
        self.element.lemma_reconcile_unchanged(widget_seq, host);
    }

    open spec fn event_processed(
        &self,
        pass: EventPass<
            CpEvent,
            CpState,
            (Option<Child::Event>, <Child::AggregateChildrenState as AggregateState>::Model),
            Child::TargetWidgetSeq,
        >,
    ) -> EventPass<
        CpEvent,
        CpState,
        (Option<Child::Event>, <Child::AggregateChildrenState as AggregateState>::Model),
        Child::TargetWidgetSeq,
    > {
        callback_pass(self.element, self.callback, pass)
    }

    fn process_event(
        &self,
        comp_ctx: &mut ProcessEventCtx<CpEvent, CpState>,
        children_state: &mut Self::AggregateChildrenState,
        widget_seq: &mut Self::TargetWidgetSeq,
        cx: &mut GlobalEventCx,
    )
        ensures
            callback_input::<CpEvent, CpState, EventParam, Child>(
                self.element,
                (EventPass {
                    queue: old(comp_ctx)@.0,
                    state: old(comp_ctx)@.1,
                    children_state: old(children_state).model(),
                    widget_seq: *old(widget_seq),
                    cx: *old(cx),
                }),
            ) matches Some(input) ==> call_ensures(
                self.callback,
                (&input.0, input.1),
                result_of(self.callback, input.0, input.1),
            ),
            (EventPass {
                queue: final(comp_ctx)@.0,
                state: final(comp_ctx)@.1,
                children_state: final(children_state).model(),
                widget_seq: *final(widget_seq),
                cx: *final(cx),
            }) == callback_pass(
                self.element,
                self.callback,
                (EventPass {
                    queue: old(comp_ctx)@.0,
                    state: old(comp_ctx)@.1,
                    children_state: old(children_state).model(),
                    widget_seq: *old(widget_seq),
                    cx: *old(cx),
                }),
            ),
    {
        self.element.process_event(comp_ctx, &mut children_state.children, widget_seq, cx);
        let local_event = self.element.process_local_event(
            &mut children_state.children,
            widget_seq,
            cx,
        );
        children_state.passed_on = None;
        if let Some(local_event) = local_event {
            match local_event.into_child_event() {
                Ok(event) => {
                    let next_state = (self.callback)(&*comp_ctx.state, event);
                    *comp_ctx.state = next_state;
                },
                Err(local_event) => {
                    children_state.passed_on = Some(local_event);
                },
            }
        }
    }

    /// The element hands out the event that it passed on in the last pass.
    open spec fn local_event(
        &self,
        children_state: (
            Option<Child::Event>,
            <Child::AggregateChildrenState as AggregateState>::Model,
        ),
        widget_seq: Child::TargetWidgetSeq,
        cx: GlobalEventCx,
    ) -> LocalEventPass<
        Child::Event,
        (Option<Child::Event>, <Child::AggregateChildrenState as AggregateState>::Model),
        Child::TargetWidgetSeq,
    > {
        taken(children_state, widget_seq, cx)
    }

    fn process_local_event(
        &self,
        children_state: &mut Self::AggregateChildrenState,
        _widget_seq: &mut Child::TargetWidgetSeq,
        _cx: &mut GlobalEventCx,
    ) -> (event: Option<Child::Event>)
        ensures
            (LocalEventPass {
                event,
                children_state: final(children_state).model(),
                widget_seq: *final(_widget_seq),
                cx: *final(_cx),
            }) == taken(old(children_state).model(), *old(_widget_seq), *old(_cx)),
    {
        children_state.passed_on.take()
    }
}

/// What the contracts say of an element that holds a state-changing callback, spelled out for a
/// caller that holds the element's parts themselves.
pub proof fn lemma_callback_element_defined<
    CpEvent,
    CpState,
    EventParam,
    Child: Element<CpEvent, CpState>,
    Cb: Fn(&CpState, EventParam) -> CpState,
>(
    element: WithCallbackEvent<CpEvent, CpState, EventParam, Child, Cb>,
    prev_state: (Option<Child::Event>, <Child::AggregateChildrenState as AggregateState>::Model),
) where Child::Event: ParentEvent<EventParam> + PartialEq
    ensures
        element.wf() == (element.element.wf() && is_function(element.callback)),
        element.built(prev_state).0.element == element.element.built(prev_state.1).0,
        element.built(prev_state).0.callback == element.callback,
        element.built(prev_state).1 == (
            Option::<Child::Event>::None,
            element.element.built(prev_state.1).1,
        ),
{
}

/// What the contracts say of a node that holds a state-changing callback, spelled out for a caller
/// that holds the node's parts themselves.
pub proof fn lemma_callback_node_defined<
    CpEvent,
    CpState,
    EventParam,
    Child: VirtualDom<CpEvent, CpState>,
    Cb: Fn(&CpState, EventParam) -> CpState,
>(
    node: WithCallbackEventData<CpEvent, CpState, EventParam, Child, Cb>,
    other: WithCallbackEventData<CpEvent, CpState, EventParam, Child, Cb>,
    host: (EventCtx, AppData, Env),
    pass: EventPass<
        CpEvent,
        CpState,
        (Option<Child::Event>, <Child::AggregateChildrenState as AggregateState>::Model),
        Child::TargetWidgetSeq,
    >,
) where Child::Event: ParentEvent<EventParam>
    ensures
        node.wf() == (node.element.wf() && is_function(node.callback)),
        node.mounted() == node.element.mounted(),
        node.shown_by(pass.widget_seq) == node.element.shown_by(pass.widget_seq),
        node.reconciled(&other, pass.widget_seq, host) == node.element.reconciled(
            &other.element,
            pass.widget_seq,
            host,
        ),
        node.event_processed(pass) == callback_pass(node.element, node.callback, pass),
        node.local_event(pass.children_state, pass.widget_seq, pass.cx) == taken(
            pass.children_state,
            pass.widget_seq,
            pass.cx,
        ),
{
}

/// An element with a state-changing callback consumes the events of the
/// declared type and passes the others on. Nothing joins the component's
/// queue. Where the wrapped node raises an event of the declared type, the
/// callback's result is the next local state, and the element has no event
/// to hand out. Where the node raises another event, the local state stays
/// as the node left it, and the element hands that event out as it is.
pub proof fn lemma_callback_consumes_declared_events<
    CpEvent,
    CpState,
    EventParam,
    Child: VirtualDom<CpEvent, CpState>,
    Cb: Fn(&CpState, EventParam) -> CpState,
>(
    node: WithCallbackEventData<CpEvent, CpState, EventParam, Child, Cb>,
    pass: EventPass<
        CpEvent,
        CpState,
        (Option<Child::Event>, <Child::AggregateChildrenState as AggregateState>::Model),
        Child::TargetWidgetSeq,
    >,
) where Child::Event: ParentEvent<EventParam>
    ensures
        ({
            let below = below(node.element, pass);
            let after = node.event_processed(pass);
            let handed_out = node.local_event(after.children_state, after.widget_seq, after.cx);
            &&& after.queue == below.queue
            &&& match raised(node.element, pass).event {
                Some(event) => match event.projected() {
                    Some(declared) => {
                        &&& after.state == result_of(node.callback, below.state, declared)
                        &&& handed_out.event is None
                    },
                    None => {
                        &&& after.state == below.state
                        &&& handed_out.event == Some(event)
                    },
                },
                None => {
                    &&& after.state == below.state
                    &&& handed_out.event is None
                },
            }
        }),
{
}

} // verus!
