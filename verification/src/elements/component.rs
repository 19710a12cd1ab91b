use vstd::prelude::*;
use crate::element_tree::{
    describe_as, described, AggregateState, CompCtx, Describe, Element, EventPass, LocalEventPass,
    Metadata, NoState, ProcessEventCtx, ReconcileCtx, VirtualDom,
};
use crate::glue::{AppData, Env, EventCtx, GlobalEventCx};
use std::collections::VecDeque;
use std::marker::PhantomData;

verus! {

/// What the tree needs to know of a component: the types of its properties,
/// of the events it raises and of its local state, and its name.
pub trait Component: Clone {
    /// What the component is given by the element that holds it.
    type Props: Default + PartialEq + 'static;

    /// The events that the component raises.
    type LocalEvent: Clone + PartialEq + 'static;

    /// The state that the component keeps from one build to the next.
    type LocalState: Clone + Default + PartialEq + 'static;

    /// The component's name.
    fn name() -> &'static str;
}

/// A component that has not been rendered yet: its function and the
/// properties to call it with.
pub struct ComponentHolder<Comp: Component, ReturnedTree, CompFn> {
    component_fn: CompFn,
    props: Comp::Props,
    _marker: PhantomData<(Comp, ReturnedTree)>,
}

impl<Comp: Component, ReturnedTree, CompFn: Clone> Clone for ComponentHolder<
    Comp,
    ReturnedTree,
    CompFn,
> where Comp::Props: Clone {
    fn clone(&self) -> (copy: Self)
        ensures
            cloned(self.component_fn(), copy.component_fn()),
            cloned(self.props(), copy.props()),
    {
        ComponentHolder {
            component_fn: self.component_fn.clone(),
            props: self.props.clone(),
            _marker: PhantomData,
        }
    }
}

/// Whether `state` is what `State::default()` may return.
pub open spec fn is_default<State: Default>(state: State) -> bool {
    call_ensures(State::default, (), state)
}

/// The value that `State::default()` returns, where it can return only one.
pub open spec fn the_default<State: Default>() -> State {
    choose|state: State| is_default(state)
}

impl<Comp: Component, ReturnedTree, CompFn> ComponentHolder<Comp, ReturnedTree, CompFn> {
    /// The component's function.
    pub closed spec fn component_fn(&self) -> CompFn {
        self.component_fn
    }

    /// The properties that the component's function is called with.
    pub closed spec fn props(&self) -> Comp::Props {
        self.props
    }

    pub fn new(component_fn: CompFn, props: Comp::Props) -> (holder: Self)
        ensures
            holder.component_fn() == component_fn,
            holder.props() == props,
    {
        Self { component_fn, props, _marker: PhantomData }
    }
}

/// The local state that a component's function gets to see when its tree is
/// built on `prev_state`: the one kept there, or the default where none is.
pub open spec fn local_state_in<CpEvent, CpState, Tree: Element<CpEvent, CpState>>(
    prev_state: <Tree::AggregateChildrenState as AggregateState>::Model,
) -> Tree::ComponentState {
    match Tree::component_state(&prev_state) {
        Some(local_state) => *local_state,
        None => the_default::<Tree::ComponentState>(),
    }
}

/// Whether `component_fn` may return `tree` when it is called with `props`
/// and sees `local_state`.
pub open spec fn renders<State, Props, Tree, CompFn: Fn(&CompCtx<State>, Props) -> Tree>(
    component_fn: CompFn,
    props: Props,
    local_state: State,
    tree: Tree,
) -> bool {
    exists|ctx: CompCtx<State>|
        ctx@ == local_state && #[trigger] call_ensures(component_fn, (&ctx, props), tree)
}

/// The tree that `component_fn` returns when it is called with `props` and
/// sees `local_state`.
pub open spec fn rendered<State, Props, Tree, CompFn: Fn(&CompCtx<State>, Props) -> Tree>(
    component_fn: CompFn,
    props: Props,
    local_state: State,
) -> Tree {
    choose|tree: Tree| renders(component_fn, props, local_state, tree)
}

/// Whether `component_fn` can stand in a component with `props`: it can be
/// called whatever the local state, what it returns depends on nothing but
/// the local state and the properties and is itself well formed, and the
/// local state has one default.
pub open spec fn renders_well<
    CpEvent,
    CpState,
    Props,
    Tree: Element<CpEvent, CpState>,
    CompFn: Fn(&CompCtx<Tree::ComponentState>, Props) -> Tree,
>(component_fn: CompFn, props: Props) -> bool {
    &&& forall|ctx: CompCtx<Tree::ComponentState>| #[trigger]
        call_requires(component_fn, (&ctx, props))
    &&& forall|local_state: Tree::ComponentState, tree: Tree, other: Tree|
        #![trigger
            renders(component_fn, props, local_state, tree),
            renders(component_fn, props, local_state, other),
        ]
        renders(component_fn, props, local_state, tree) && renders(
            component_fn,
            props,
            local_state,
            other,
        ) ==> tree == other
    &&& forall|local_state: Tree::ComponentState, tree: Tree| #[trigger]
        renders(component_fn, props, local_state, tree) ==> tree.wf()
    &&& forall|state: Tree::ComponentState, other: Tree::ComponentState|
        #![trigger is_default(state), is_default(other)]
        is_default(state) && is_default(other) ==> state == other
}

/// What the contracts say of a component that has not been rendered yet,
/// spelled out for a caller that holds the component's function itself.
pub proof fn lemma_holder_defined<
    CpEvent,
    CpState,
    Comp: Component,
    ReturnedTree: Element<CpEvent, CpState, Event = Comp::LocalEvent>,
    CompFn: Fn(&CompCtx<ReturnedTree::ComponentState>, Comp::Props) -> ReturnedTree,
>(
    holder: ComponentHolder<Comp, ReturnedTree, CompFn>,
    prev_state: <ReturnedTree::AggregateChildrenState as AggregateState>::Model,
)
    ensures
        <ComponentHolder<Comp, ReturnedTree, CompFn> as Element<CpEvent, CpState>>::wf(&holder)
            == renders_well::<CpEvent, CpState, Comp::Props, ReturnedTree, CompFn>(
            holder.component_fn(),
            holder.props(),
        ),
        <ComponentHolder<Comp, ReturnedTree, CompFn> as Element<CpEvent, CpState>>::built(
            holder,
            prev_state,
        ) == rendered(
            holder.component_fn(),
            holder.props(),
            local_state_in::<CpEvent, CpState, ReturnedTree>(prev_state),
        ).built(prev_state),
{
}

/// What a component's function returns: the tree it rendered, under the
/// component's name.
///
/// It marks the boundary of a component. Its state holds, besides the state
/// of the tree below, the component's local state and the queue of the events
/// that the component has raised and its parent has not taken yet.
#[derive(Clone, Debug, Default, PartialEq, Eq, Hash)]
pub struct ComponentOutput<ComponentEvent, ComponentState, Child> {
    pub child: Child,
    pub name: &'static str,
    pub _metadata: Metadata<ComponentEvent, ComponentState>,
}

/// The virtual-DOM node of [`ComponentOutput`].
#[derive(Clone, Debug, Default, PartialEq, Eq, Hash)]
pub struct ComponentOutputData<ComponentEvent, ComponentState, Child> {
    pub child: Child,
    pub name: &'static str,
    pub _metadata: Metadata<ComponentEvent, ComponentState>,
}

impl<
    CpEvent,
    CpState,
    Comp: Component,
    ReturnedTree: Element<CpEvent, CpState, Event = Comp::LocalEvent>,
    CompFn: Fn(&CompCtx<ReturnedTree::ComponentState>, Comp::Props) -> ReturnedTree,
> Element<CpEvent, CpState> for ComponentHolder<Comp, ReturnedTree, CompFn> {
    type Event = Comp::LocalEvent;

    type ComponentState = NoState;

    type AggregateChildrenState = ReturnedTree::AggregateChildrenState;

    type BuildOutput = ReturnedTree::BuildOutput;

    open spec fn wf(&self) -> bool {
        renders_well::<CpEvent, CpState, Comp::Props, ReturnedTree, CompFn>(
            self.component_fn(),
            self.props(),
        )
    }

    /// The component's function is called with the local state kept in
    /// `prev_state`, and the tree that it returns is built on `prev_state`.
    open spec fn built(
        self,
        prev_state: <ReturnedTree::AggregateChildrenState as AggregateState>::Model,
    ) -> (
        ReturnedTree::BuildOutput,
        <ReturnedTree::AggregateChildrenState as AggregateState>::Model,
    ) {
        rendered(
            self.component_fn(),
            self.props(),
            local_state_in::<CpEvent, CpState, ReturnedTree>(prev_state),
        ).built(prev_state)
    }

    fn build(self, prev_state: Self::AggregateChildrenState) -> (out: (
        Self::BuildOutput,
        Self::AggregateChildrenState,
    ))
        ensures
            renders(
                self.component_fn(),
                self.props(),
                local_state_in::<CpEvent, CpState, ReturnedTree>(prev_state.model()),
                rendered(
                    self.component_fn(),
                    self.props(),
                    local_state_in::<CpEvent, CpState, ReturnedTree>(prev_state.model()),
                ),
            ),
            (out.0, out.1.model()) == rendered(
                self.component_fn(),
                self.props(),
                local_state_in::<CpEvent, CpState, ReturnedTree>(prev_state.model()),
            ).built(prev_state.model()),
            <ReturnedTree::BuildOutput as VirtualDom<CpEvent, CpState>>::wf(&out.0),
    {
        let default_state: ReturnedTree::ComponentState = Default::default();
        let local_state = match ReturnedTree::get_component_state(&prev_state) {
            Some(local_state) => local_state,
            None => &default_state,
        };
        let ctx = CompCtx::new(local_state);
        let element_tree = (self.component_fn)(&ctx, self.props);
        proof {
            // There is one default, so the one made here is it.
            assert(is_default(default_state));
            assert(is_default(the_default::<ReturnedTree::ComponentState>()));
            // The tree that came back is a tree that the function renders,
            // and it renders one.
            assert(renders(self.component_fn(), self.props(), ctx@, element_tree));
        }
        element_tree.build(prev_state)
    }

    open spec fn component_state(
        state: &<ReturnedTree::AggregateChildrenState as AggregateState>::Model,
    ) -> Option<&NoState> {
        None
    }

    fn get_component_state(_state: &Self::AggregateChildrenState) -> (local: Option<&NoState>) {
        None
    }
}

impl<
    CpEvent,
    CpState,
    ComponentEvent: Clone + PartialEq + 'static,
    ComponentState: Clone + Default + PartialEq + 'static,
    Child: Element<ComponentEvent, ComponentState>,
> Element<CpEvent, CpState> for ComponentOutput<ComponentEvent, ComponentState, Child> {
    type Event = ComponentEvent;

    type ComponentState = ComponentState;

    type AggregateChildrenState = (
        VecDeque<ComponentEvent>,
        ComponentState,
        Child::AggregateChildrenState,
    );

    type BuildOutput = ComponentOutputData<ComponentEvent, ComponentState, Child::BuildOutput>;

    open spec fn wf(&self) -> bool {
        self.child.wf()
    }

    /// The child is built on the state kept for it. The local state is carried
    /// over as it was, and the event queue starts empty.
    open spec fn built(
        self,
        prev_state: (
            Seq<ComponentEvent>,
            ComponentState,
            <Child::AggregateChildrenState as AggregateState>::Model,
        ),
    ) -> (
        ComponentOutputData<ComponentEvent, ComponentState, Child::BuildOutput>,
        (
            Seq<ComponentEvent>,
            ComponentState,
            <Child::AggregateChildrenState as AggregateState>::Model,
        ),
    ) {
        let (child, children_state) = self.child.built(prev_state.2);
        (
            ComponentOutputData { child, name: self.name, _metadata: Metadata::token() },
            (Seq::empty(), prev_state.1, children_state),
        )
    }

    fn build(self, prev_state: Self::AggregateChildrenState) -> (out: (
        Self::BuildOutput,
        Self::AggregateChildrenState,
    )) {
        let (_, prev_local_state, children_prev_state) = prev_state;
        let (child, children_state) = self.child.build(children_prev_state);
        (
            ComponentOutputData { child, name: self.name, _metadata: Metadata::new() },
            (VecDeque::new(), prev_local_state, children_state),
        )
    }

    open spec fn component_state(
        state: &(
            Seq<ComponentEvent>,
            ComponentState,
            <Child::AggregateChildrenState as AggregateState>::Model,
        ),
    ) -> Option<&ComponentState> {
        Some(&state.1)
    }

    fn get_component_state(state: &Self::AggregateChildrenState) -> (local: Option<
        &ComponentState,
    >) {
        Some(&state.1)
    }
}

impl<
    CpEvent,
    CpState,
    ComponentEvent,
    ComponentState,
    Child: VirtualDom<ComponentEvent, ComponentState>,
> VirtualDom<CpEvent, CpState> for ComponentOutputData<ComponentEvent, ComponentState, Child> {
    type Event = ComponentEvent;

    type AggregateChildrenState = (
        VecDeque<ComponentEvent>,
        ComponentState,
        Child::AggregateChildrenState,
    );

    type TargetWidgetSeq = Child::TargetWidgetSeq;

    open spec fn wf(&self) -> bool {
        self.child.wf()
    }

    open spec fn mounted(&self) -> Child::TargetWidgetSeq {
        self.child.mounted()
    }

    fn init_tree(&self) -> (widget_seq: Child::TargetWidgetSeq) {
        self.child.init_tree()
    }

    open spec fn reconciled(
        &self,
        other: &Self,
        widget_seq: Child::TargetWidgetSeq,
        host: (EventCtx, AppData, Env),
    ) -> (Child::TargetWidgetSeq, (EventCtx, AppData, Env)) {
        self.child.reconciled(&other.child, widget_seq, host)
    }

    fn reconcile(
        &self,
        other: &Self,
        widget_seq: &mut Child::TargetWidgetSeq,
        ctx: &mut ReconcileCtx,
    ) {
        self.child.reconcile(&other.child, widget_seq, ctx);
    }

    open spec fn shown_by(&self, widget_seq: Child::TargetWidgetSeq) -> bool {
        self.child.shown_by(widget_seq)
    }

    fn is_shown_by(&self, widget_seq: &Child::TargetWidgetSeq) -> (shown: bool) {
        self.child.is_shown_by(widget_seq)
    }

    proof fn lemma_mounted_shows(&self) {
        self.child.lemma_mounted_shows();
    }

    proof fn lemma_reconciled_shows(
        &self,
        other: &Self,
        widget_seq: Child::TargetWidgetSeq,
        host: (EventCtx, AppData, Env),
    ) {
        self.child.lemma_reconciled_shows(&other.child, widget_seq, host);
    }

    proof fn lemma_reconcile_unchanged(
        &self,
        widget_seq: Child::TargetWidgetSeq,
        host: (EventCtx, AppData, Env),
    ) {
        self.child.lemma_reconcile_unchanged(widget_seq, host);
    }

    /// The child processes the event with this component's own queue and
    /// local state in place of the parent's, which stay as they were.
    open spec fn event_processed(
        &self,
        pass: EventPass<
            CpEvent,
            CpState,
            (
                Seq<ComponentEvent>,
                ComponentState,
                <Child::AggregateChildrenState as AggregateState>::Model,
            ),
            Child::TargetWidgetSeq,
        >,
    ) -> EventPass<
        CpEvent,
        CpState,
        (
            Seq<ComponentEvent>,
            ComponentState,
            <Child::AggregateChildrenState as AggregateState>::Model,
        ),
        Child::TargetWidgetSeq,
    > {
        let below = self.child.event_processed(
            EventPass {
                queue: pass.children_state.0,
                state: pass.children_state.1,
                children_state: pass.children_state.2,
                widget_seq: pass.widget_seq,
                cx: pass.cx,
            },
        );
        EventPass {
            queue: pass.queue,
            state: pass.state,
            children_state: (below.queue, below.state, below.children_state),
            widget_seq: below.widget_seq,
            cx: below.cx,
        }
    }

    fn process_event(
        &self,
        _comp_ctx: &mut ProcessEventCtx<CpEvent, CpState>,
        children_state: &mut Self::AggregateChildrenState,
        widget_seq: &mut Self::TargetWidgetSeq,
        cx: &mut GlobalEventCx,
    ) {
        let mut ctx = ProcessEventCtx {
            event_queue: &mut children_state.0,
            state: &mut children_state.1,
        };
        self.child.process_event(&mut ctx, &mut children_state.2, widget_seq, cx)
    }

    /// The component hands out the oldest event in its queue, if there is one.
    open spec fn local_event(
        &self,
        children_state: (
            Seq<ComponentEvent>,
            ComponentState,
            <Child::AggregateChildrenState as AggregateState>::Model,
        ),
        widget_seq: Child::TargetWidgetSeq,
        cx: GlobalEventCx,
    ) -> LocalEventPass<
        ComponentEvent,
        (
            Seq<ComponentEvent>,
            ComponentState,
            <Child::AggregateChildrenState as AggregateState>::Model,
        ),
        Child::TargetWidgetSeq,
    > {
        if children_state.0.len() > 0 {
            LocalEventPass {
                event: Some(children_state.0.first()),
                children_state: (children_state.0.drop_first(), children_state.1, children_state.2),
                widget_seq,
                cx,
            }
        } else {
            LocalEventPass { event: None, children_state, widget_seq, cx }
        }
    }

    fn process_local_event(
        &self,
        children_state: &mut Self::AggregateChildrenState,
        _widget_seq: &mut Child::TargetWidgetSeq,
        _cx: &mut GlobalEventCx,
    ) -> (event: Option<ComponentEvent>) {
        let event_queue = &mut children_state.0;
        event_queue.pop_front()
    }
}

impl<ComponentEvent, ComponentState, Child: Describe> Describe for ComponentOutput<
    ComponentEvent,
    ComponentState,
    Child,
> {
    open spec fn description(&self) -> Seq<char> {
        described(self.name@, self.child.description())
    }

    fn describe(&self) -> (text: String) {
        describe_as(self.name, self.child.describe())
    }
}

impl<ComponentEvent, ComponentState, Child: Describe> Describe for ComponentOutputData<
    ComponentEvent,
    ComponentState,
    Child,
> {
    open spec fn description(&self) -> Seq<char> {
        described(self.name@, self.child.description())
    }

    fn describe(&self) -> (text: String) {
        describe_as(self.name, self.child.describe())
    }
}

/// A component is a boundary for events and state: whatever the tree inside
/// it does with an event, the queue and the local state of the component
/// around it stay as they were.
pub proof fn lemma_component_is_a_boundary<
    CpEvent,
    CpState,
    ComponentEvent,
    ComponentState,
    Child: VirtualDom<ComponentEvent, ComponentState>,
>(
    node: ComponentOutputData<ComponentEvent, ComponentState, Child>,
    pass: EventPass<
        CpEvent,
        CpState,
        (
            Seq<ComponentEvent>,
            ComponentState,
            <Child::AggregateChildrenState as AggregateState>::Model,
        ),
        Child::TargetWidgetSeq,
    >,
)
    ensures
        node.event_processed(pass).queue == pass.queue,
        node.event_processed(pass).state == pass.state,
{
}

/// A component's queue is first in, first out: an event that joins the
/// queue is handed out after all that were there before it, and the events
/// that stay keep their order.
pub proof fn lemma_queue_is_fifo<
    CpEvent,
    CpState,
    ComponentEvent,
    ComponentState,
    Child: VirtualDom<ComponentEvent, ComponentState>,
>(
    node: ComponentOutputData<ComponentEvent, ComponentState, Child>,
    queue: Seq<ComponentEvent>,
    joining: ComponentEvent,
    local_state: ComponentState,
    children_state: <Child::AggregateChildrenState as AggregateState>::Model,
    widget_seq: Child::TargetWidgetSeq,
    cx: GlobalEventCx,
)
    ensures
        ({
            let taken = <ComponentOutputData<ComponentEvent, ComponentState, Child> as VirtualDom<
                CpEvent,
                CpState,
            >>::local_event(
                &node,
                (queue.push(joining), local_state, children_state),
                widget_seq,
                cx,
            );
            &&& taken.event == Some(if queue.len() > 0 { queue.first() } else { joining })
            &&& taken.children_state.0 == if queue.len() > 0 {
                queue.drop_first().push(joining)
            } else {
                Seq::<ComponentEvent>::empty()
            }
            &&& taken.children_state.1 == local_state
            &&& taken.children_state.2 == children_state
            &&& taken.widget_seq == widget_seq
            &&& taken.cx == cx
        }),
{
    if queue.len() > 0 {
        assert(queue.push(joining).drop_first() =~= queue.drop_first().push(joining));
    } else {
        assert(queue.push(joining).drop_first() =~= Seq::<ComponentEvent>::empty());
    }
}

/// A component's local state makes the round trip from one build to the
/// next. The state that a build leaves behind holds the local state it was
/// given, so after a first build on the default it holds the default; and
/// the local state that the component's function sees in a build is the one
/// held by the state that the build is given, whatever it was changed to in
/// between.
pub proof fn lemma_local_state_round_trip<
    CpEvent,
    CpState,
    ComponentEvent: Clone + PartialEq + 'static,
    ComponentState: Clone + Default + PartialEq + 'static,
    Child: Element<ComponentEvent, ComponentState>,
>(
    output: ComponentOutput<ComponentEvent, ComponentState, Child>,
    prev_state: (
        Seq<ComponentEvent>,
        ComponentState,
        <Child::AggregateChildrenState as AggregateState>::Model,
    ),
    changed: ComponentState,
)
    ensures
        ({
            let next_state = <ComponentOutput<ComponentEvent, ComponentState, Child> as Element<
                CpEvent,
                CpState,
            >>::built(output, prev_state).1;
            &&& next_state.1 == prev_state.1
            &&& is_default(prev_state.1) ==> is_default(next_state.1)
            &&& local_state_in::<
                CpEvent,
                CpState,
                ComponentOutput<ComponentEvent, ComponentState, Child>,
            >(next_state) == prev_state.1
            &&& local_state_in::<
                CpEvent,
                CpState,
                ComponentOutput<ComponentEvent, ComponentState, Child>,
            >((next_state.0, changed, next_state.2)) == changed
        }),
{
}

} // verus!
