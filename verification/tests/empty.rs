use panoramix::element_tree::{Element, NoEvent, VirtualDom};
use panoramix::elements::empty::{EmptyElement, EmptyElementData};
use panoramix::widgets::EmptySequence;

#[test]
fn new_empty() {
    let empty = EmptyElement::new();
    let (empty_data, _) = Element::<NoEvent, ()>::build(empty.clone(), ());
    assert_eq!(empty, EmptyElement);
    assert_eq!(empty_data, EmptyElementData);
}

#[test]
fn empty_widget() {
    let empty = EmptyElement::new();
    let (empty_data, state) = Element::<NoEvent, ()>::build(empty, ());
    let widget_seq = VirtualDom::<NoEvent, ()>::init_tree(&empty_data);
    assert_eq!(widget_seq, EmptySequence);
    assert_eq!(state, ());
}
