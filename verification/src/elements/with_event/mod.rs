//! Elements that handle the events of what they wrap: each takes the events
//! of one declared type and passes the others on.

pub mod bubble;
pub mod callback;
pub mod map;

pub use bubble::{WithBubbleEvent, WithBubbleEventData};
pub use callback::{WithCallbackEvent, WithCallbackEventData};
pub use map::{WithMapEvent, WithMapEventData};

use vstd::prelude::*;
use crate::element_tree::{AggregateState, EventPass, LocalEventPass, VirtualDom};
use crate::glue::GlobalEventCx;

verus! {

/// An event type that holds the events of type `Child` among its own: each
/// of them can be put into it and taken out again unchanged.
pub trait ParentEvent<Child>: Sized {
    /// `child` as an event of this type.
    spec fn injected(child: Child) -> Self;

    /// The event of type `Child` that this event is, if it is one.
    spec fn projected(self) -> Option<Child>;

    /// Makes an event of this type of `child`.
    fn from_child_event(child: Child) -> (event: Self)
        ensures
            event == Self::injected(child),
    ;

    /// Takes the event of type `Child` out of this event, or hands this
    /// event back where it is none.
    fn into_child_event(self) -> (child: Result<Child, Self>)
        ensures
            match child {
                Ok(child) => self.projected() == Some(child),
                Err(event) => self.projected() is None && event == self,
            },
    ;

    /// An event that was put in comes out again, unchanged.
    proof fn lemma_lossless(child: Child)
        ensures
            Self::injected(child).projected() == Some(child),
    ;
}

impl<Event> ParentEvent<Event> for Event {
    open spec fn injected(child: Event) -> Event {
        child
    }

    open spec fn projected(self) -> Option<Event> {
        Some(self)
    }

    fn from_child_event(child: Event) -> (event: Event) {
        child
    }

    fn into_child_event(self) -> (child: Result<Event, Event>) {
        Ok(self)
    }

    proof fn lemma_lossless(child: Event) {
    }
}

/// The state below an element that handles events of one declared type: the
/// event that the wrapped node raised in the last pass and that was none of
/// that type, until it is taken, and the state of the wrapped node.
#[derive(Clone, Debug, PartialEq, Eq, Hash)]
pub struct WithEventState<Event, Children> {
    pub passed_on: Option<Event>,
    pub children: Children,
}

impl<Event, Children: Default> Default for WithEventState<Event, Children> {
    fn default() -> (state: Self)
        ensures
            state.passed_on is None,
            call_ensures(Children::default, (), state.children),
    {
        WithEventState { passed_on: None, children: Children::default() }
    }
}

impl<Event, Children: AggregateState> AggregateState for WithEventState<Event, Children> {
    type Model = (Option<Event>, Children::Model);

    open spec fn model(&self) -> (Option<Event>, Children::Model) {
        (self.passed_on, self.children.model())
    }
}

/// Whether `callback` can be called on every state and event, and returns
/// one result for each.
pub open spec fn is_function<State, Event, Out, Cb: Fn(&State, Event) -> Out>(
    callback: Cb,
) -> bool {
    &&& forall|state: State, event: Event| #[trigger] call_requires(callback, (&state, event))
    &&& forall|state: State, event: Event, out: Out, other: Out|
        #![trigger
            call_ensures(callback, (&state, event), out),
            call_ensures(callback, (&state, event), other),
        ]
        call_ensures(callback, (&state, event), out) && call_ensures(
            callback,
            (&state, event),
            other,
        ) ==> out == other
}

/// What `callback` returns on `state` and `event`.
pub open spec fn result_of<State, Event, Out, Cb: Fn(&State, Event) -> Out>(
    callback: Cb,
    state: State,
    event: Event,
) -> Out {
    choose|out: Out| call_ensures(callback, (&state, event), out)
}

/// Whether `callback` returns at all on `state` and `event`.
pub open spec fn returns_on<State, Event, Out, Cb: Fn(&State, Event) -> Out>(
    callback: Cb,
    state: State,
    event: Event,
) -> bool {
    exists|out: Out| call_ensures(callback, (&state, event), out)
}

/// Whether `callback` returns `None` whenever it returns.
pub open spec fn drops_all<State, Event, Out, Cb: Fn(&State, Event) -> Option<Out>>(
    callback: Cb,
) -> bool {
    forall|state: State, event: Event, out: Option<Out>| #[trigger]
        call_ensures(callback, (&state, event), out) ==> out is None
}

/// The event of the declared type that a node raised, if it raised one.
pub open spec fn declared_event<Event: ParentEvent<EventParam>, EventParam>(
    raised: Option<Event>,
) -> Option<EventParam> {
    match raised {
        Some(event) => event.projected(),
        None => None,
    }
}

/// The event that a node raised and that is none of the declared type, if
/// it raised one: it is passed on as it is.
pub open spec fn passed_on<Event: ParentEvent<EventParam>, EventParam>(
    raised: Option<Event>,
) -> Option<Event> {
    match raised {
        Some(event) => if event.projected() is None {
            Some(event)
        } else {
            None
        },
        None => None,
    }
}

/// What the wrapped node leaves behind in a pass, before the element that
/// wraps it acts: the wrapped node processes the event first, children
/// before parents.
pub open spec fn below<CpEvent, CpState, Child: VirtualDom<CpEvent, CpState>>(
    child: Child,
    pass: EventPass<
        CpEvent,
        CpState,
        (Option<Child::Event>, <Child::AggregateChildrenState as AggregateState>::Model),
        Child::TargetWidgetSeq,
    >,
) -> EventPass<
    CpEvent,
    CpState,
    <Child::AggregateChildrenState as AggregateState>::Model,
    Child::TargetWidgetSeq,
> {
    child.event_processed(
        EventPass {
            queue: pass.queue,
            state: pass.state,
            children_state: pass.children_state.1,
            widget_seq: pass.widget_seq,
            cx: pass.cx,
        },
    )
}

/// What the wrapped node raises in a pass, once it has processed the event,
/// and what taking it leaves behind.
pub open spec fn raised<CpEvent, CpState, Child: VirtualDom<CpEvent, CpState>>(
    child: Child,
    pass: EventPass<
        CpEvent,
        CpState,
        (Option<Child::Event>, <Child::AggregateChildrenState as AggregateState>::Model),
        Child::TargetWidgetSeq,
    >,
) -> LocalEventPass<
    Child::Event,
    <Child::AggregateChildrenState as AggregateState>::Model,
    Child::TargetWidgetSeq,
> {
    let below = below(child, pass);
    child.local_event(below.children_state, below.widget_seq, below.cx)
}

/// The local state and the event that a callback is called with in a pass:
/// what `child` left of the local state, and the event of the declared type
/// that it raised. `None` where it raised no such event.
pub open spec fn callback_input<
    CpEvent,
    CpState,
    EventParam,
    Child: VirtualDom<CpEvent, CpState>,
>(
    child: Child,
    pass: EventPass<
        CpEvent,
        CpState,
        (Option<Child::Event>, <Child::AggregateChildrenState as AggregateState>::Model),
        Child::TargetWidgetSeq,
    >,
) -> Option<(CpState, EventParam)> where Child::Event: ParentEvent<EventParam> {
    match declared_event::<Child::Event, EventParam>(raised(child, pass).event) {
        Some(event) => Some((below(child, pass).state, event)),
        None => None,
    }
}

/// What asking an element that handles events for its own event gives: the
/// event that it passed on in the last pass, which is then gone.
pub open spec fn taken<Event, Children, WidgetSeq>(
    children_state: (Option<Event>, Children),
    widget_seq: WidgetSeq,
    cx: GlobalEventCx,
) -> LocalEventPass<Event, (Option<Event>, Children), WidgetSeq> {
    LocalEventPass {
        event: children_state.0,
        children_state: (None, children_state.1),
        widget_seq,
        cx,
    }
}

} // verus!
