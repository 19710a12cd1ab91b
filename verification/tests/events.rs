use panoramix::element_tree::{
    Describe, Element, ElementExt, Metadata, NoEvent, ProcessEventCtx, VirtualDom,
};
use panoramix::elements::component::{ComponentOutput, ComponentOutputData};
use panoramix::elements::empty::{EmptyElement, EmptyElementData};
use panoramix::elements::group::{Group, GroupEvent};
use panoramix::elements::with_event::{ParentEvent, WithEventState};
use panoramix::glue::GlobalEventCx;
use panoramix::widgets::EmptySequence;
use std::collections::VecDeque;

/// What a child component raises in these tests.
#[derive(Clone, Debug, PartialEq)]
enum ChildEvent {
    Click(u8),
    Hover(Hover),
}

/// The event of moving over a widget.
#[derive(Clone, Debug, PartialEq)]
struct Hover;

/// What the enclosing component raises in these tests.
#[derive(Clone, Debug, PartialEq)]
enum AppEvent {
    Clicked(u8),
    Closed,
}

impl ParentEvent<u8> for ChildEvent {
    fn injected(_child: u8) -> Self {
        unreachable!()
    }

    fn projected(self) -> Option<u8> {
        unreachable!()
    }

    fn from_child_event(child: u8) -> Self {
        ChildEvent::Click(child)
    }

    fn into_child_event(self) -> Result<u8, Self> {
        match self {
            ChildEvent::Click(n) => Ok(n),
            other => Err(other),
        }
    }

    fn lemma_lossless(_child: u8) {
    }
}

impl ParentEvent<Hover> for ChildEvent {
    fn injected(_child: Hover) -> Self {
        unreachable!()
    }

    fn projected(self) -> Option<Hover> {
        unreachable!()
    }

    fn from_child_event(child: Hover) -> Self {
        ChildEvent::Hover(child)
    }

    fn into_child_event(self) -> Result<Hover, Self> {
        match self {
            ChildEvent::Hover(hover) => Ok(hover),
            other => Err(other),
        }
    }

    fn lemma_lossless(_child: Hover) {
    }
}

impl ParentEvent<u8> for AppEvent {
    fn injected(_child: u8) -> Self {
        unreachable!()
    }

    fn projected(self) -> Option<u8> {
        unreachable!()
    }

    fn from_child_event(child: u8) -> Self {
        AppEvent::Clicked(child)
    }

    fn into_child_event(self) -> Result<u8, Self> {
        match self {
            AppEvent::Clicked(n) => Ok(n),
            other => Err(other),
        }
    }

    fn lemma_lossless(_child: u8) {
    }
}

type Child = ComponentOutput<ChildEvent, u16, EmptyElement>;

type ChildState = (VecDeque<ChildEvent>, u16, ());

type WrapperState = WithEventState<ChildEvent, ChildState>;

fn child() -> Child {
    ComponentOutput { child: EmptyElement, name: "Child", _metadata: Metadata::new() }
}

fn wrapper_state(raised: Vec<ChildEvent>) -> WrapperState {
    WithEventState { passed_on: None, children: (VecDeque::from(raised), 0u16, ()) }
}

fn three_events() -> Vec<ChildEvent> {
    vec![ChildEvent::Click(1), ChildEvent::Hover(Hover), ChildEvent::Click(3)]
}

/// Runs `passes` event passes of `node` and returns the enclosing
/// component's queue and local state after them, and the state below.
fn run<Node>(
    node: &Node,
    raised: Vec<ChildEvent>,
    passes: usize,
) -> (VecDeque<AppEvent>, u32, WrapperState)
where
    Node: VirtualDom<
        AppEvent,
        u32,
        AggregateChildrenState = WrapperState,
        TargetWidgetSeq = EmptySequence,
    >,
{
    let mut queue = VecDeque::from(vec![AppEvent::Closed]);
    let mut state = 100u32;
    let mut children_state = wrapper_state(raised);
    let mut widget_seq = EmptySequence;
    let mut cx = GlobalEventCx::default();
    for _ in 0..passes {
        let mut comp_ctx = ProcessEventCtx { event_queue: &mut queue, state: &mut state };
        node.process_event(&mut comp_ctx, &mut children_state, &mut widget_seq, &mut cx);
    }
    (queue, state, children_state)
}

#[test]
fn identity_parent_event_keeps_the_event() {
    assert_eq!(<u8 as ParentEvent<u8>>::from_child_event(7), 7);
    assert_eq!(<u8 as ParentEvent<u8>>::into_child_event(7), Ok(7));
}

#[test]
fn bubble_up_forwards_each_declared_event_unchanged() {
    let element = child().bubble_up::<u8>(Metadata::<AppEvent, u32>::new());
    let (node, state) = element.build(wrapper_state(three_events()));
    assert_eq!(state, wrapper_state(vec![]));

    let (queue, state, children_state) = run(&node, three_events(), 1);
    assert_eq!(queue, VecDeque::from(vec![AppEvent::Closed, AppEvent::Clicked(1)]));
    assert_eq!(state, 100);
    assert_eq!(children_state.passed_on, None);
    assert_eq!(
        children_state.children.0,
        VecDeque::from(vec![ChildEvent::Hover(Hover), ChildEvent::Click(3)])
    );

    let (queue, _, children_state) = run(&node, three_events(), 2);
    assert_eq!(queue, VecDeque::from(vec![AppEvent::Closed, AppEvent::Clicked(1)]));
    assert_eq!(children_state.passed_on, Some(ChildEvent::Hover(Hover)));

    let (queue, state, children_state) = run(&node, three_events(), 5);
    assert_eq!(
        queue,
        VecDeque::from(vec![AppEvent::Closed, AppEvent::Clicked(1), AppEvent::Clicked(3)])
    );
    assert_eq!(state, 100);
    assert_eq!(children_state, wrapper_state(vec![]));
}

#[test]
fn bubble_up_forwards_nothing_when_nothing_is_raised() {
    let element = child().bubble_up::<u8>(Metadata::<AppEvent, u32>::new());
    let (node, _) = element.build(wrapper_state(vec![]));
    let (queue, state, _) = run(&node, vec![], 3);
    assert_eq!(queue, VecDeque::from(vec![AppEvent::Closed]));
    assert_eq!(state, 100);
    let (queue, _, _) = run(&node, vec![ChildEvent::Hover(Hover), ChildEvent::Hover(Hover)], 3);
    assert_eq!(queue, VecDeque::from(vec![AppEvent::Closed]));
}

#[test]
fn map_event_to_none_suppresses_every_event() {
    let element = child().map_event(
        Metadata::<AppEvent, u32>::new(),
        |_state: &u32, _clicked: u8| -> Option<u8> { None },
    );
    let (node, _) = element.build(wrapper_state(vec![]));
    for passes in 0..6 {
        let (queue, state, _) = run(&node, three_events(), passes);
        assert_eq!(queue, VecDeque::from(vec![AppEvent::Closed]));
        assert_eq!(state, 100);
    }
}

#[test]
fn map_event_forwards_what_the_callback_returns() {
    let element = child().map_event(
        Metadata::<AppEvent, u32>::new(),
        |state: &u32, clicked: u8| -> Option<u8> {
            if clicked % 2 == 0 {
                Some(clicked + (*state as u8))
            } else {
                None
            }
        },
    );
    let (node, _) = element.build(wrapper_state(vec![]));
    let raised = vec![ChildEvent::Click(1), ChildEvent::Click(2), ChildEvent::Click(4)];
    let (queue, state, children_state) = run(&node, raised, 3);
    assert_eq!(
        queue,
        VecDeque::from(vec![AppEvent::Closed, AppEvent::Clicked(102), AppEvent::Clicked(104)])
    );
    assert_eq!(state, 100);
    assert_eq!(children_state, wrapper_state(vec![]));
}

#[test]
fn on_changes_the_local_state_and_forwards_nothing() {
    let element = child().on(
        Metadata::<AppEvent, u32>::new(),
        |state: &u32, clicked: u8| -> u32 { *state + clicked as u32 },
    );
    let (node, _) = element.build(wrapper_state(vec![]));
    let raised = vec![ChildEvent::Click(5), ChildEvent::Hover(Hover), ChildEvent::Click(7)];

    let (queue, state, _) = run(&node, raised.clone(), 1);
    assert_eq!(queue, VecDeque::from(vec![AppEvent::Closed]));
    assert_eq!(state, 105);

    let (queue, state, _) = run(&node, raised.clone(), 2);
    assert_eq!(queue, VecDeque::from(vec![AppEvent::Closed]));
    assert_eq!(state, 105);

    let (queue, state, children_state) = run(&node, raised, 4);
    assert_eq!(queue, VecDeque::from(vec![AppEvent::Closed]));
    assert_eq!(state, 112);
    assert_eq!(children_state, wrapper_state(vec![]));
}

#[test]
fn events_of_another_type_pass_through_unchanged() {
    let element = child().on(
        Metadata::<AppEvent, u32>::new(),
        |state: &u32, clicked: u8| -> u32 { *state + clicked as u32 },
    );
    let (node, _) = element.build(wrapper_state(vec![]));
    let mut queue = VecDeque::from(vec![AppEvent::Closed]);
    let mut state = 100u32;
    let mut children_state = wrapper_state(vec![
        ChildEvent::Hover(Hover),
        ChildEvent::Click(5),
        ChildEvent::Hover(Hover),
    ]);
    let mut widget_seq = EmptySequence;
    let mut cx = GlobalEventCx::default();
    let mut handed_out = Vec::new();
    for _ in 0..4 {
        {
            let mut comp_ctx = ProcessEventCtx { event_queue: &mut queue, state: &mut state };
            node.process_event(&mut comp_ctx, &mut children_state, &mut widget_seq, &mut cx);
        }
        handed_out.push(node.process_local_event(&mut children_state, &mut widget_seq, &mut cx));
        let again = node.process_local_event(&mut children_state, &mut widget_seq, &mut cx);
        assert_eq!(again, None);
    }
    assert_eq!(
        handed_out,
        vec![Some(ChildEvent::Hover(Hover)), None, Some(ChildEvent::Hover(Hover)), None]
    );
    assert_eq!(state, 105);
    assert_eq!(queue, VecDeque::from(vec![AppEvent::Closed]));
}

#[test]
fn stacked_elements_each_take_their_own_events() {
    let md = Metadata::<AppEvent, u32>::new();
    let element = child()
        .on(md, |state: &u32, clicked: u8| -> u32 { *state + clicked as u32 })
        .on(md, |state: &u32, _hover: Hover| -> u32 { *state * 2 });
    let (node, _) =
        element.build(WithEventState { passed_on: None, children: wrapper_state(vec![]) });
    let mut queue = VecDeque::from(vec![AppEvent::Closed]);
    let mut state = 100u32;
    let mut children_state = WithEventState {
        passed_on: None,
        children: wrapper_state(vec![
            ChildEvent::Click(5),
            ChildEvent::Hover(Hover),
            ChildEvent::Click(1),
        ]),
    };
    let mut widget_seq = EmptySequence;
    let mut cx = GlobalEventCx::default();
    let mut states = Vec::new();
    for _ in 0..4 {
        let mut comp_ctx = ProcessEventCtx { event_queue: &mut queue, state: &mut state };
        node.process_event(&mut comp_ctx, &mut children_state, &mut widget_seq, &mut cx);
        states.push(*comp_ctx.state);
    }
    assert_eq!(states, vec![105, 210, 211, 211]);
    assert_eq!(queue, VecDeque::from(vec![AppEvent::Closed]));
    assert_eq!(
        children_state,
        WithEventState { passed_on: None, children: wrapper_state(vec![]) }
    );
}

#[test]
fn wrappers_keep_the_wrapped_element() {
    let md = Metadata::<AppEvent, u32>::new();
    let bubbling = child().bubble_up::<u8>(md);
    assert_eq!(bubbling.element, child());
    let mapping =
        child().map_event(md, |_state: &u32, clicked: u8| -> Option<u8> { Some(clicked) });
    assert_eq!(mapping.element, child());
    assert_eq!((mapping.callback)(&0, 9), Some(9));
    let calling = child().on(md, |state: &u32, _clicked: u8| -> u32 { *state + 1 });
    assert_eq!(calling.element, child());
    assert_eq!((calling.callback)(&4, 0), 5);
}

#[test]
fn describe_names_the_wrapping_elements() {
    let md = Metadata::<AppEvent, u32>::new();
    let element = child().on(md, |state: &u32, _clicked: u8| -> u32 { *state }).bubble_up::<u8>(md);
    assert_eq!(element.describe(), "WithBubbleEvent(WithCallbackEvent(Child(EmptyElement)))");
    let (node, _) =
        element.build(WithEventState { passed_on: None, children: wrapper_state(vec![]) });
    assert_eq!(
        node.describe(),
        "WithBubbleEventData(WithCallbackEventData(Child(EmptyElementData)))"
    );
    let mapping = child().map_event(md, |_state: &u32, _clicked: u8| -> Option<u8> { None });
    assert_eq!(mapping.describe(), "WithMapEvent(Child(EmptyElement))");
    let (node, _) = mapping.build(wrapper_state(vec![]));
    assert_eq!(node.describe(), "WithMapEventData(Child(EmptyElementData))");
}

#[test]
fn build_forgets_an_event_that_was_not_taken() {
    let element = child().bubble_up::<u8>(Metadata::<AppEvent, u32>::new());
    let prev_state = WithEventState {
        passed_on: Some(ChildEvent::Hover(Hover)),
        children: (VecDeque::from(vec![ChildEvent::Click(1)]), 7u16, ()),
    };
    let (_, state) = element.build(prev_state);
    assert_eq!(state, WithEventState { passed_on: None, children: (VecDeque::new(), 7u16, ()) });
    assert_eq!(WrapperState::default(), wrapper_state(vec![]));
}

#[test]
fn group_asks_the_second_node_only_when_the_first_has_no_event() {
    let first: ComponentOutput<u8, u16, EmptyElement> =
        ComponentOutput { child: EmptyElement, name: "First", _metadata: Metadata::new() };
    let second: ComponentOutput<u32, u16, EmptyElement> =
        ComponentOutput { child: EmptyElement, name: "Second", _metadata: Metadata::new() };
    let group = Group::new(first, second);
    let (node, state) = Element::<NoEvent, ()>::build(
        group,
        ((VecDeque::from(vec![9u8]), 1u16, ()), (VecDeque::from(vec![9u32]), 2u16, ())),
    );
    assert_eq!(state, ((VecDeque::new(), 1u16, ()), (VecDeque::new(), 2u16, ())));

    let mut state =
        ((VecDeque::from(vec![1u8]), 1u16, ()), (VecDeque::from(vec![2u32, 3u32]), 2u16, ()));
    let mut widget_seq = (EmptySequence, EmptySequence);
    let mut cx = GlobalEventCx::default();
    let mut taken = Vec::new();
    for _ in 0..4 {
        taken.push(VirtualDom::<NoEvent, ()>::process_local_event(
            &node,
            &mut state,
            &mut widget_seq,
            &mut cx,
        ));
    }
    assert_eq!(
        taken,
        vec![
            Some(GroupEvent::First(1u8)),
            Some(GroupEvent::Second(2u32)),
            Some(GroupEvent::Second(3u32)),
            None,
        ]
    );
}

#[test]
fn empty_node_ignores_events() {
    let mut queue: VecDeque<AppEvent> = VecDeque::from(vec![AppEvent::Closed]);
    let mut state = 1u32;
    let mut widget_seq = EmptySequence;
    let mut cx = GlobalEventCx::default();
    {
        let mut comp_ctx = ProcessEventCtx { event_queue: &mut queue, state: &mut state };
        EmptyElementData.process_event(&mut comp_ctx, &mut (), &mut widget_seq, &mut cx);
    }
    let raised = VirtualDom::<AppEvent, u32>::process_local_event(
        &EmptyElementData,
        &mut (),
        &mut widget_seq,
        &mut cx,
    );
    assert_eq!(raised, None);
    assert_eq!(queue, VecDeque::from(vec![AppEvent::Closed]));
    assert_eq!(state, 1);
}

#[test]
fn update_value_replaces_the_node() {
    let mut node: ComponentOutputData<u8, u16, EmptyElementData> =
        ComponentOutputData { child: EmptyElementData, name: "Old", _metadata: Metadata::new() };
    let other: ComponentOutputData<u8, u16, EmptyElementData> =
        ComponentOutputData { child: EmptyElementData, name: "New", _metadata: Metadata::new() };
    VirtualDom::<NoEvent, ()>::update_value(&mut node, other.clone());
    assert_eq!(node, other);
}
