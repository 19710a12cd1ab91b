//! The protocol between elements, virtual-DOM nodes and native widgets.

use vstd::prelude::*;
use vstd::string::StringExecFns;
use crate::elements::with_event::{ParentEvent, WithBubbleEvent, WithCallbackEvent, WithMapEvent};
use crate::glue::{AppData, Env, EventCtx, GlobalEventCx};
use crate::widget_sequence::WidgetSequence;
use std::collections::VecDeque;
use std::convert::Infallible;
use std::marker::PhantomData;

verus! {

/// Placeholder type for elements that don't raise events.
///
/// No value of it can be made: its one variant holds a value of a type that
/// has none.
#[derive(Debug, PartialEq, Eq, Hash)]
pub enum NoEvent {
    Never(Infallible),
}

impl Clone for NoEvent {
    fn clone(&self) -> (copy: Self)
        ensures
            copy == *self,
    {
        match self {
            NoEvent::Never(never) => NoEvent::Never(*never),
        }
    }
}

/// Local state of an element that is no component.
#[derive(Debug, Clone, Copy, PartialEq, Eq, Hash)]
pub struct NoState;

impl Default for NoState {
    fn default() -> (state: Self)
        ensures
            state == NoState,
    {
        NoState
    }
}

/// Context type passed to all components when building them.
pub struct CompCtx<'a, LocalState> {
    pub(crate) local_state: &'a LocalState,
}

impl<'a, LocalState> View for CompCtx<'a, LocalState> {
    type V = LocalState;

    /// The local state of the component that is being built.
    closed spec fn view(&self) -> LocalState {
        *self.local_state
    }
}

impl<'a, LocalState> CompCtx<'a, LocalState> {
    pub(crate) fn new(local_state: &'a LocalState) -> (ctx: Self)
        ensures
            ctx@ == *local_state,
    {
        CompCtx { local_state }
    }

    /// Returns the local state of the current component instance.
    pub fn use_local_state(&self) -> (local_state: &'a LocalState)
        ensures
            *local_state == self@,
    {
        self.local_state
    }
}

/// A token that ties a callback to the event and local-state types of the
/// component it is written in. It holds no data.
#[derive(Debug, PartialEq, Eq, Hash)]
pub struct Metadata<ComponentEvent, ComponentState> {
    _marker: PhantomData<(ComponentEvent, ComponentState)>,
}

impl<ComponentEvent, ComponentState> Metadata<ComponentEvent, ComponentState> {
    /// The one value of the type.
    pub closed spec fn token() -> Self {
        Metadata { _marker: PhantomData }
    }

    pub fn new() -> (metadata: Self)
        ensures
            metadata == Self::token(),
    {
        Metadata { _marker: PhantomData }
    }

    /// A token carries no data: any two tokens of one type are equal.
    pub proof fn lemma_tokens_equal(a: Self, b: Self)
        ensures
            a == b,
    {
    }
}

impl<ComponentEvent, ComponentState> Clone for Metadata<ComponentEvent, ComponentState> {
    fn clone(&self) -> (copy: Self)
        ensures
            copy == *self,
    {
        Metadata { _marker: PhantomData }
    }
}

impl<ComponentEvent, ComponentState> Copy for Metadata<ComponentEvent, ComponentState> {

}

impl<ComponentEvent, ComponentState> Default for Metadata<ComponentEvent, ComponentState> {
    fn default() -> (metadata: Self)
        ensures
            metadata == Self::token(),
    {
        Metadata { _marker: PhantomData }
    }
}

/// Context required by [`VirtualDom::reconcile`]: the host's event context,
/// the application data and the environment.
pub struct ReconcileCtx<'a, 'b, 'c> {
    pub event_ctx: &'a mut EventCtx,
    pub data: &'b mut AppData,
    pub env: &'c Env,
}

impl<'a, 'b, 'c> View for ReconcileCtx<'a, 'b, 'c> {
    type V = (EventCtx, AppData, Env);

    open spec fn view(&self) -> (EventCtx, AppData, Env) {
        (*self.event_ctx, *self.data, *self.env)
    }
}

/// A value that can say in a line what it is: its name and, in brackets,
/// what it holds.
pub trait Describe {
    /// The line that says what the value is.
    spec fn description(&self) -> Seq<char>;

    fn describe(&self) -> (text: String)
        ensures
            text@ == self.description(),
    ;
}

impl Describe for () {
    open spec fn description(&self) -> Seq<char> {
        "()"@
    }

    fn describe(&self) -> (text: String) {
        String::from_str("()")
    }
}

/// The description of something called `name` that holds something
/// described by `inner`.
pub open spec fn described(name: Seq<char>, inner: Seq<char>) -> Seq<char> {
    name + "("@ + inner + ")"@
}

/// Puts `name` in front of `inner` in brackets.
pub fn describe_as(name: &str, inner: String) -> (text: String)
    ensures
        text@ == described(name@, inner@),
{
    let mut text = String::from_str(name);
    text.append("(");
    text.append(inner.as_str());
    text.append(")");
    text
}

/// The state that a subtree keeps between two builds, as contracts see it.
///
/// A subtree's state mirrors the shape of the tree: nothing for a leaf, and
/// for each component a queue of the events it has raised, its local state
/// and the state of what it returned. The model holds a queue as the sequence
/// of its events, oldest first, and everything else as it is.
pub trait AggregateState {
    /// What contracts see of the state.
    type Model;

    /// The state as contracts see it.
    spec fn model(&self) -> Self::Model;
}

impl AggregateState for () {
    type Model = ();

    open spec fn model(&self) -> () {
        ()
    }
}

impl<First: AggregateState, Second: AggregateState> AggregateState for (First, Second) {
    type Model = (First::Model, Second::Model);

    open spec fn model(&self) -> (First::Model, Second::Model) {
        (self.0.model(), self.1.model())
    }
}

impl<Event, State, Children: AggregateState> AggregateState for (
    VecDeque<Event>,
    State,
    Children,
) {
    type Model = (Seq<Event>, State, Children::Model);

    open spec fn model(&self) -> (Seq<Event>, State, Children::Model) {
        (self.0@, self.1, self.2.model())
    }
}

/// The event queue and the local state of the component that a node lives in,
/// as handed down the tree while events are processed.
pub struct ProcessEventCtx<'e, 's, ComponentEvent, ComponentState> {
    pub event_queue: &'e mut VecDeque<ComponentEvent>,
    pub state: &'s mut ComponentState,
}

impl<'e, 's, ComponentEvent, ComponentState> View for ProcessEventCtx<
    'e,
    's,
    ComponentEvent,
    ComponentState,
> {
    type V = (Seq<ComponentEvent>, ComponentState);

    /// The queued events, oldest first, and the local state.
    open spec fn view(&self) -> (Seq<ComponentEvent>, ComponentState) {
        ((*self.event_queue)@, *self.state)
    }
}

/// Everything that processing an event can read and change: the enclosing
/// component's queue and local state, the state kept below the node, the
/// node's widgets and what the host delivered.
pub struct EventPass<CpEvent, CpState, ChildrenState, WidgetSeq> {
    pub queue: Seq<CpEvent>,
    pub state: CpState,
    pub children_state: ChildrenState,
    pub widget_seq: WidgetSeq,
    pub cx: GlobalEventCx,
}

/// What asking a node for its own event gives: the event, if it raised one,
/// and what the question left behind.
pub struct LocalEventPass<Event, ChildrenState, WidgetSeq> {
    pub event: Option<Event>,
    pub children_state: ChildrenState,
    pub widget_seq: WidgetSeq,
    pub cx: GlobalEventCx,
}

/// A node of the virtual DOM: what an element is built into.
///
/// A node owns no widgets. It can mount the widgets that show it, bring
/// widgets that showed an earlier node in line with itself, and turn what the
/// host delivers into events of the component it lives in. `CpEvent` and
/// `CpState` are the event and local-state types of that component.
///
/// Every method is a function of what it is given: what it returns and
/// leaves behind is stated in full, and nothing else decides.
pub trait VirtualDom<CpEvent, CpState>: Describe + Sized {
    /// The type of events this node can raise.
    type Event;

    /// The state that the node and what is below it keep between builds.
    type AggregateChildrenState: AggregateState;

    /// The widgets that show the node.
    type TargetWidgetSeq: WidgetSequence;

    /// Whether the node can be used: whether each callback it holds can be
    /// called on every input and returns one result for each.
    spec fn wf(&self) -> bool;

    /// The widgets that the node mounts.
    spec fn mounted(&self) -> Self::TargetWidgetSeq;

    /// Makes the widgets of this node and of what is below it, for the first
    /// mount.
    fn init_tree(&self) -> (widget_seq: Self::TargetWidgetSeq)
        requires
            self.wf(),
        ensures
            widget_seq == self.mounted(),
            self.shown_by(widget_seq),
    ;

    /// What reconciling against `other` makes of `widget_seq` and of what
    /// the host sees.
    spec fn reconciled(
        &self,
        other: &Self,
        widget_seq: Self::TargetWidgetSeq,
        host: (EventCtx, AppData, Env),
    ) -> (Self::TargetWidgetSeq, (EventCtx, AppData, Env));

    /// Brings `widget_seq` in line with this node. `other` is the node that
    /// was mounted or reconciled last: `widget_seq` has to show it. The
    /// context goes on borrowing what it borrowed.
    fn reconcile(
        &self,
        other: &Self,
        widget_seq: &mut Self::TargetWidgetSeq,
        ctx: &mut ReconcileCtx,
    )
        requires
            self.wf(),
            other.wf(),
            other.shown_by(*old(widget_seq)),
        ensures
            (*final(widget_seq), final(ctx)@) == self.reconciled(
                other,
                *old(widget_seq),
                old(ctx)@,
            ),
            self.shown_by(*final(widget_seq)),
            *final(final(ctx).event_ctx) == *final(old(ctx).event_ctx),
            *final(final(ctx).data) == *final(old(ctx).data),
    ;

    /// Whether `widget_seq` shows this node: whether it is what mounting
    /// the node, or reconciling it, leaves behind.
    spec fn shown_by(&self, widget_seq: Self::TargetWidgetSeq) -> bool;

    /// Tells whether `widget_seq` shows this node.
    fn is_shown_by(&self, widget_seq: &Self::TargetWidgetSeq) -> (shown: bool)
        requires
            self.wf(),
        ensures
            shown == self.shown_by(*widget_seq),
    ;

    /// What a node mounts shows the node.
    proof fn lemma_mounted_shows(&self)
        requires
            self.wf(),
        ensures
            self.shown_by(self.mounted()),
    ;

    /// Reconciling brings the widgets in line with the new node, where they
    /// showed the node that it is reconciled against.
    proof fn lemma_reconciled_shows(
        &self,
        other: &Self,
        widget_seq: Self::TargetWidgetSeq,
        host: (EventCtx, AppData, Env),
    )
        requires
            self.wf(),
            other.wf(),
            other.shown_by(widget_seq),
        ensures
            self.shown_by(self.reconciled(other, widget_seq, host).0),
    ;

    /// Reconciling against a node equal to this one leaves the widgets as
    /// they are.
    proof fn lemma_reconcile_unchanged(
        &self,
        widget_seq: Self::TargetWidgetSeq,
        host: (EventCtx, AppData, Env),
    )
        requires
            self.wf(),
        ensures
            self.reconciled(self, widget_seq, host).0 == widget_seq,
    ;

    /// Takes the place of the node with `other`, or with what the node
    /// chooses to keep of itself.
    fn update_value(&mut self, other: Self)
        default_ensures
            *final(self) == other,
    {
        *self = other;
    }

    /// What processing an event leaves behind.
    spec fn event_processed(
        &self,
        pass: EventPass<
            CpEvent,
            CpState,
            <Self::AggregateChildrenState as AggregateState>::Model,
            Self::TargetWidgetSeq,
        >,
    ) -> EventPass<
        CpEvent,
        CpState,
        <Self::AggregateChildrenState as AggregateState>::Model,
        Self::TargetWidgetSeq,
    >;

    /// Lets the nodes below process what the host delivered, children
    /// before parents, and then does with the event that they raise what
    /// this node is there for. The context goes on borrowing what it
    /// borrowed.
    fn process_event(
        &self,
        comp_ctx: &mut ProcessEventCtx<CpEvent, CpState>,
        children_state: &mut Self::AggregateChildrenState,
        widget_seq: &mut Self::TargetWidgetSeq,
        cx: &mut GlobalEventCx,
    )
        requires
            self.wf(),
        ensures
            (EventPass {
                queue: final(comp_ctx)@.0,
                state: final(comp_ctx)@.1,
                children_state: final(children_state).model(),
                widget_seq: *final(widget_seq),
                cx: *final(cx),
            }) == self.event_processed(
                (EventPass {
                    queue: old(comp_ctx)@.0,
                    state: old(comp_ctx)@.1,
                    children_state: old(children_state).model(),
                    widget_seq: *old(widget_seq),
                    cx: *old(cx),
                }),
            ),
            *final(final(comp_ctx).event_queue) == *final(old(comp_ctx).event_queue),
            *final(final(comp_ctx).state) == *final(old(comp_ctx).state),
    ;

    /// The event that the node raises, if any, and what taking it leaves
    /// behind.
    spec fn local_event(
        &self,
        children_state: <Self::AggregateChildrenState as AggregateState>::Model,
        widget_seq: Self::TargetWidgetSeq,
        cx: GlobalEventCx,
    ) -> LocalEventPass<
        Self::Event,
        <Self::AggregateChildrenState as AggregateState>::Model,
        Self::TargetWidgetSeq,
    >;

    /// Takes the one event that the node has to raise, if it has one.
    fn process_local_event(
        &self,
        children_state: &mut Self::AggregateChildrenState,
        widget_seq: &mut Self::TargetWidgetSeq,
        cx: &mut GlobalEventCx,
    ) -> (event: Option<Self::Event>)
        requires
            self.wf(),
        ensures
            (LocalEventPass {
                event,
                children_state: final(children_state).model(),
                widget_seq: *final(widget_seq),
                cx: *final(cx),
            }) == self.local_event(old(children_state).model(), *old(widget_seq), *old(cx)),
    ;
}

/// The trait implemented by all GUI elements.
///
/// An element describes one node of the GUI and owns nothing else: it can be
/// dropped without more ado. It is made anew for every build and consumed by
/// it.
///
/// The trait is parameterized on `CpEvent` and `CpState`, the event and
/// local-state types of the component that the element is built in. They are
/// different from [`Element::Event`], the events that the element itself
/// raises, and which [`ElementExt::on`], [`ElementExt::map_event`] and
/// [`ElementExt::bubble_up`] take.
pub trait Element<CpEvent = NoEvent, CpState = ()>: Sized {
    /// The type of events this element can raise.
    type Event;

    /// The local state that the element keeps, where it is a component:
    /// [`NoState`] where it is none.
    type ComponentState: Clone + Default + PartialEq + 'static;

    /// The state that the element and what is below it keep between builds.
    /// Its type follows the shape of the tree, and state is found again by
    /// its place in the tree.
    type AggregateChildrenState: Default + PartialEq + AggregateState;

    /// The node that the element is built into.
    type BuildOutput: VirtualDom<
        CpEvent,
        CpState,
        Event = Self::Event,
        AggregateChildrenState = Self::AggregateChildrenState,
    >;

    /// Whether the element can be built: whether each function it holds
    /// can be called on every input and returns one result for each.
    spec fn wf(&self) -> bool;

    /// The node that the element is built into on `prev_state`, and the
    /// state that the build leaves behind.
    spec fn built(self, prev_state: <Self::AggregateChildrenState as AggregateState>::Model) -> (
        Self::BuildOutput,
        <Self::AggregateChildrenState as AggregateState>::Model,
    );

    /// Builds the element on the state that the previous build of the same
    /// place in the tree left behind, or on the default at the first build.
    fn build(self, prev_state: Self::AggregateChildrenState) -> (out: (
        Self::BuildOutput,
        Self::AggregateChildrenState,
    ))
        requires
            self.wf(),
        ensures
            (out.0, out.1.model()) == self.built(prev_state.model()),
            out.0.wf(),
    ;

    /// The local state that `state` keeps for the component that this
    /// element is the output of, where it is one.
    spec fn component_state(
        state: &<Self::AggregateChildrenState as AggregateState>::Model,
    ) -> Option<&Self::ComponentState>;

    /// Finds in `state` the local state of the component that this element
    /// is the output of. An element that is no component's output has none.
    fn get_component_state(state: &Self::AggregateChildrenState) -> (local: Option<
        &Self::ComponentState,
    >)
        ensures
            local == Self::component_state(&state.model()),
    ;
}

/// What `n` event passes of `node`, one after the other, leave behind.
pub open spec fn after_passes<CpEvent, CpState, Node: VirtualDom<CpEvent, CpState>>(
    node: Node,
    pass: EventPass<
        CpEvent,
        CpState,
        <Node::AggregateChildrenState as AggregateState>::Model,
        Node::TargetWidgetSeq,
    >,
    n: nat,
) -> EventPass<
    CpEvent,
    CpState,
    <Node::AggregateChildrenState as AggregateState>::Model,
    Node::TargetWidgetSeq,
>
    decreases n,
{
    if n == 0 {
        pass
    } else {
        node.event_processed(after_passes(node, pass, (n - 1) as nat))
    }
}

/// Building is pure: whatever `build` returns for an element is fixed by the
/// element and by the model of the state it is built on. Two builds of one
/// element on states with one model give the same node and next states with
/// one model.
pub proof fn lemma_build_is_pure<CpEvent, CpState, Elem: Element<CpEvent, CpState>>(
    element: Elem,
    prev_state: Elem::AggregateChildrenState,
    out: (Elem::BuildOutput, Elem::AggregateChildrenState),
    other_prev_state: Elem::AggregateChildrenState,
    other_out: (Elem::BuildOutput, Elem::AggregateChildrenState),
)
    requires
        element.wf(),
        prev_state.model() == other_prev_state.model(),
        call_ensures(Elem::build, (element, prev_state), out),
        call_ensures(Elem::build, (element, other_prev_state), other_out),
    ensures
        out.0 == other_out.0,
        out.1.model() == other_out.1.model(),
        out.0.wf(),
{
}

/// Fixes the types of the enclosing component of `_elem` to those of no
/// component at all, where nothing else would.
pub fn assign_empty_state_type<Elem: Element<NoEvent, ()>>(_elem: &Elem) {
}

/// Fixes the types of the enclosing component of `_elem`, where nothing else
/// would.
pub fn assign_state_type<CpEvent, CpState, Elem: Element<CpEvent, CpState>>(_elem: &Elem) {
}

/// Helper methods that can be called on all elements.
pub trait ElementExt<CpEvent, CpState>: Element<CpEvent, CpState> + Sized {
    /// Events of type `EventParam` that this element raises change the local
    /// state of the component: `callback` gives the next state from the
    /// state and the event. They go no further up.
    fn on<EventParam, Cb: Fn(&CpState, EventParam) -> CpState>(
        self,
        md: Metadata<CpEvent, CpState>,
        callback: Cb,
    ) -> (wrapped: WithCallbackEvent<CpEvent, CpState, EventParam, Self, Cb>) where
        Self::Event: ParentEvent<EventParam>,

        ensures
            wrapped.element == self,
            wrapped.callback == callback,
            wrapped._metadata == md,
    {
        WithCallbackEvent { element: self, callback, _metadata: md, _marker: PhantomData }
    }

    /// Events of type `EventParam` that this element raises become events of
    /// the component: `callback` gives the event to raise, or `None` to raise
    /// nothing.
    fn map_event<
        EventParam,
        EventReturn,
        Cb: Fn(&CpState, EventParam) -> Option<EventReturn>,
    >(self, md: Metadata<CpEvent, CpState>, callback: Cb) -> (wrapped: WithMapEvent<
        CpEvent,
        CpState,
        EventParam,
        EventReturn,
        Self,
        Cb,
    >) where Self::Event: ParentEvent<EventParam>, CpEvent: ParentEvent<EventReturn>
        ensures
            wrapped.element == self,
            wrapped.callback == callback,
            wrapped._metadata == md,
    {
        WithMapEvent { element: self, callback, _metadata: md, _marker: PhantomData }
    }

    /// Events of type `Event` that this element raises become events of the
    /// component, as they are.
    fn bubble_up<Event>(self, md: Metadata<CpEvent, CpState>) -> (wrapped: WithBubbleEvent<
        CpEvent,
        CpState,
        Event,
        Self,
    >) where Self::Event: ParentEvent<Event>, CpEvent: ParentEvent<Event>
        ensures
            wrapped.element == self,
            wrapped._metadata == md,
    {
        WithBubbleEvent { element: self, _metadata: md, _marker: PhantomData }
    }
}

impl<CpEvent, CpState, ET: Element<CpEvent, CpState>> ElementExt<CpEvent, CpState> for ET {

}

} // verus!
