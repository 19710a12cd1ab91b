use panoramix::element_tree::{
    assign_empty_state_type, CompCtx, Describe, Element, Metadata, NoEvent, ProcessEventCtx,
    VirtualDom,
};
use panoramix::elements::component::{
    Component, ComponentHolder, ComponentOutput, ComponentOutputData,
};
use panoramix::elements::empty::{EmptyElement, EmptyElementData};
use panoramix::glue::GlobalEventCx;
use panoramix::widgets::EmptySequence;
use std::collections::VecDeque;

#[derive(Debug, Default, Clone, PartialEq, Hash)]
struct MyComponent;

type MyPropsType = ();
type MyLocalEvent = NoEvent;
type MyLocalState = u16;

impl MyComponent {
    fn new(props: MyPropsType) -> impl Element<Event = MyLocalEvent> {
        ComponentHolder::<Self, _, _>::new(MyComponent::render, props)
    }

    fn render(
        _ctx: &CompCtx<MyLocalState>,
        _my_props: MyPropsType,
    ) -> ComponentOutput<MyLocalEvent, MyLocalState, EmptyElement> {
        let child = EmptyElement::new();
        ComponentOutput {
            child,
            name: "MyComponent",
            _metadata: Metadata::<MyLocalEvent, MyLocalState>::new(),
        }
    }
}

impl Component for MyComponent {
    type Props = MyPropsType;
    type LocalState = MyLocalState;
    type LocalEvent = MyLocalEvent;

    fn name() -> &'static str {
        "MyComponent"
    }
}

/// A component whose tree shows the local state that its function saw.
#[derive(Debug, Default, Clone, PartialEq, Hash)]
struct Counter;

impl Component for Counter {
    type Props = u8;
    type LocalState = u16;
    type LocalEvent = u8;

    fn name() -> &'static str {
        "Counter"
    }
}

fn render_counter(ctx: &CompCtx<u16>, step: u8) -> ComponentOutput<u8, u16, EmptyElement> {
    let name = match (*ctx.use_local_state(), step) {
        (0, 1) => "zero by one",
        (41, 1) => "forty-one by one",
        _ => "other",
    };
    ComponentOutput { child: EmptyElement::new(), name, _metadata: Metadata::new() }
}

#[test]
fn call_component() {
    let my_component = MyComponent::new(());
    assign_empty_state_type(&my_component);

    let (component_result, _state) = my_component.build(Default::default());
    assert_eq!(component_result.describe(), "MyComponent(EmptyElementData)");
}

#[test]
fn component_first_build_keeps_default_local_state() {
    let holder = ComponentHolder::<MyComponent, _, _>::new(MyComponent::render, ());
    let (node, state) = Element::<NoEvent, ()>::build(holder, Default::default());
    assert_eq!(
        node,
        ComponentOutputData {
            child: EmptyElementData,
            name: "MyComponent",
            _metadata: Metadata::new(),
        }
    );
    assert_eq!(state, (VecDeque::new(), 0u16, ()));
}

#[test]
fn component_output_carries_local_state_over_and_empties_queue() {
    let output: ComponentOutput<u8, u16, EmptyElement> =
        ComponentOutput { child: EmptyElement, name: "Counter", _metadata: Metadata::new() };
    let prev_state = (VecDeque::from(vec![3u8, 4u8]), 41u16, ());
    let (node, state) = Element::<NoEvent, ()>::build(output, prev_state);
    assert_eq!(node.name, "Counter");
    assert_eq!(node.child, EmptyElementData);
    assert_eq!(state, (VecDeque::new(), 41u16, ()));
}

#[test]
fn component_function_sees_the_kept_local_state() {
    let first = ComponentHolder::<Counter, _, _>::new(render_counter, 1u8);
    let (node, state) = Element::<NoEvent, ()>::build(first, Default::default());
    assert_eq!(node.name, "zero by one");
    assert_eq!(state.1, 0);

    let changed = (state.0, 41u16, state.2);
    let second = ComponentHolder::<Counter, _, _>::new(render_counter, 1u8);
    let (node, state) = Element::<NoEvent, ()>::build(second, changed);
    assert_eq!(node.name, "forty-one by one");
    assert_eq!(state.1, 41);

    let third = ComponentHolder::<Counter, _, _>::new(render_counter, 1u8);
    let (node, state) = Element::<NoEvent, ()>::build(third, state);
    assert_eq!(node.name, "forty-one by one");
    assert_eq!(state.1, 41);
}

#[test]
fn get_component_state_reads_the_local_slot() {
    let state = (VecDeque::from(vec![1u8]), 9u16, ());
    type Output = ComponentOutput<u8, u16, EmptyElement>;
    let local = <Output as Element<NoEvent, ()>>::get_component_state(&state);
    assert_eq!(local, Some(&9u16));
    let none = <EmptyElement as Element<NoEvent, ()>>::get_component_state(&());
    assert_eq!(none, None);
    let held = <ComponentHolder<
        Counter,
        ComponentOutput<u8, u16, EmptyElement>,
        fn(&CompCtx<u16>, u8) -> ComponentOutput<u8, u16, EmptyElement>,
    > as Element<NoEvent, ()>>::get_component_state(&state);
    assert_eq!(held, None);
}

#[test]
fn build_twice_gives_equal_results() {
    let output: ComponentOutput<u8, u16, EmptyElement> =
        ComponentOutput { child: EmptyElement, name: "Twice", _metadata: Metadata::new() };
    let prev_state = (VecDeque::from(vec![1u8]), 5u16, ());
    let first = Element::<NoEvent, ()>::build(output.clone(), prev_state.clone());
    let second = Element::<NoEvent, ()>::build(output, prev_state);
    assert_eq!(first, second);
}

#[test]
fn component_hands_out_its_events_oldest_first() {
    let node: ComponentOutputData<u8, u16, EmptyElementData> =
        ComponentOutputData { child: EmptyElementData, name: "Queue", _metadata: Metadata::new() };
    let mut state = (VecDeque::from(vec![10u8, 20u8, 30u8]), 0u16, ());
    let mut widget_seq = EmptySequence;
    let mut cx = GlobalEventCx::default();
    let mut taken = Vec::new();
    for _ in 0..4 {
        taken.push(VirtualDom::<NoEvent, ()>::process_local_event(
            &node,
            &mut state,
            &mut widget_seq,
            &mut cx,
        ));
    }
    assert_eq!(taken, vec![Some(10u8), Some(20u8), Some(30u8), None]);
    assert_eq!(state, (VecDeque::new(), 0u16, ()));
    assert_eq!(cx, GlobalEventCx::default());
}

#[test]
fn component_keeps_the_parent_queue_and_state_out_of_its_tree() {
    let node: ComponentOutputData<u8, u16, EmptyElementData> =
        ComponentOutputData { child: EmptyElementData, name: "Inner", _metadata: Metadata::new() };
    let mut parent_queue: VecDeque<u32> = VecDeque::from(vec![7u32]);
    let mut parent_state = 3u64;
    let mut state = (VecDeque::from(vec![10u8]), 2u16, ());
    let mut widget_seq = EmptySequence;
    let mut cx = GlobalEventCx::default();
    {
        let mut comp_ctx =
            ProcessEventCtx { event_queue: &mut parent_queue, state: &mut parent_state };
        node.process_event(&mut comp_ctx, &mut state, &mut widget_seq, &mut cx);
    }
    assert_eq!(parent_queue, VecDeque::from(vec![7u32]));
    assert_eq!(parent_state, 3);
    assert_eq!(state, (VecDeque::from(vec![10u8]), 2u16, ()));
}

#[test]
fn describe_names_what_is_held() {
    let output: ComponentOutput<u8, u16, EmptyElement> =
        ComponentOutput { child: EmptyElement, name: "Outer", _metadata: Metadata::new() };
    assert_eq!(output.describe(), "Outer(EmptyElement)");
    assert_eq!(().describe(), "()");
    assert_eq!(EmptyElement.describe(), "EmptyElement");
    assert_eq!(EmptyElementData.describe(), "EmptyElementData");
}

#[test]
fn metadata_is_one_value() {
    let a = Metadata::<u8, u16>::new();
    let b = Metadata::<u8, u16>::default();
    let c = a;
    assert_eq!(a, b);
    assert_eq!(a, c.clone());
    assert_eq!(std::mem::size_of::<Metadata<u8, u16>>(), 0);
}
