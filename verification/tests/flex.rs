use panoramix::element_tree::{
    assign_empty_state_type, assign_state_type, Describe, Element, NoEvent, ReconcileCtx,
    VirtualDom,
};
use panoramix::elements::empty::{EmptyElement, EmptyElementData};
use panoramix::elements::flex::{Column, ColumnData, Row, RowData};
use panoramix::elements::group::{Group, GroupData};
use panoramix::elements::label::{Label, LabelData};
use panoramix::glue::{AppData, Env, EventCtx};
use panoramix::widget_sequence::WidgetSequence;
use panoramix::widgets::flex::{Axis, CrossAxisAlignment, Flex, MainAxisAlignment};
use panoramix::widgets::{EmptySequence, LabelWidget, SingleWidget};

fn label_widget(text: &str) -> SingleWidget<LabelWidget> {
    SingleWidget(LabelWidget { text: text.to_string() })
}

fn two_labels(first: &str, second: &str) -> GroupData<LabelData, LabelData> {
    GroupData {
        first: LabelData { text: first.to_string() },
        second: LabelData { text: second.to_string() },
    }
}

#[test]
fn quick_test() {
    let _row = Row::new(Group::new(Label::new("Hello"), EmptyElement::new()));
    assign_empty_state_type(&_row);
    let _column = Column::new(Label::new("Hello"));
    assign_state_type::<u8, u16, _>(&_column);
}

#[test]
fn row_mounts_a_horizontal_container_around_its_child() {
    let row = Row::new(Group::new(Label::new("A"), Label::new("B")));
    let (node, state) = Element::<NoEvent, ()>::build(row, ((), ()));
    assert_eq!(node, RowData { child: two_labels("A", "B") });
    assert_eq!(state, ((), ()));
    let widget_seq = VirtualDom::<NoEvent, ()>::init_tree(&node);
    assert_eq!(
        widget_seq,
        SingleWidget(Flex {
            direction: Axis::Horizontal,
            cross_alignment: CrossAxisAlignment::Center,
            main_alignment: MainAxisAlignment::Start,
            fill_major_axis: false,
            children_seq: (label_widget("A"), label_widget("B")),
        })
    );
    assert_eq!(widget_seq.len(), 1);
    assert_eq!(widget_seq.0.children_seq.len(), 2);
}

#[test]
fn column_mounts_a_vertical_container_around_its_child() {
    let column = Column::new(Label::new("A"));
    let (node, _) = Element::<NoEvent, ()>::build(column, ());
    assert_eq!(node, ColumnData { child: LabelData { text: "A".to_string() } });
    let widget_seq = VirtualDom::<NoEvent, ()>::init_tree(&node);
    assert_eq!(
        widget_seq,
        SingleWidget(Flex {
            direction: Axis::Vertical,
            cross_alignment: CrossAxisAlignment::Center,
            main_alignment: MainAxisAlignment::Start,
            fill_major_axis: false,
            children_seq: label_widget("A"),
        })
    );
}

#[test]
fn row_reconcile_touches_only_the_widget_of_the_changed_child() {
    let prev_row = RowData { child: two_labels("A", "B") };
    let row = RowData { child: two_labels("A2", "B") };
    let mut widget_seq = VirtualDom::<NoEvent, ()>::init_tree(&prev_row);
    let mut event_ctx = EventCtx::default();
    let mut data = AppData::default();
    let env = Env::default();
    {
        let mut ctx = ReconcileCtx { event_ctx: &mut event_ctx, data: &mut data, env: &env };
        VirtualDom::<NoEvent, ()>::reconcile(&row, &prev_row, &mut widget_seq, &mut ctx);
    }
    assert_eq!(
        widget_seq,
        SingleWidget(Flex {
            direction: Axis::Horizontal,
            cross_alignment: CrossAxisAlignment::Center,
            main_alignment: MainAxisAlignment::Start,
            fill_major_axis: false,
            children_seq: (label_widget("A2"), label_widget("B")),
        })
    );
    assert_eq!(event_ctx, EventCtx { layout_requested: true, paint_requested: false });
    assert_eq!(data, AppData::default());
}

#[test]
fn column_reconcile_touches_only_the_widget_of_the_changed_child() {
    let prev_column = ColumnData { child: two_labels("A", "B") };
    let column = ColumnData { child: two_labels("A", "B2") };
    let mut widget_seq = VirtualDom::<NoEvent, ()>::init_tree(&prev_column);
    let mut event_ctx = EventCtx::default();
    let mut data = AppData::default();
    let env = Env::default();
    {
        let mut ctx = ReconcileCtx { event_ctx: &mut event_ctx, data: &mut data, env: &env };
        VirtualDom::<NoEvent, ()>::reconcile(&column, &prev_column, &mut widget_seq, &mut ctx);
    }
    assert_eq!(widget_seq.0.direction, Axis::Vertical);
    assert_eq!(widget_seq.0.children_seq, (label_widget("A"), label_widget("B2")));
    assert_eq!(widget_seq, VirtualDom::<NoEvent, ()>::init_tree(&column));
}

#[test]
fn reconcile_after_reconcile_follows_the_nodes() {
    let first = RowData { child: two_labels("A", "B") };
    let second = RowData { child: two_labels("A", "C") };
    let third = RowData { child: two_labels("D", "C") };
    let mut widget_seq = VirtualDom::<NoEvent, ()>::init_tree(&first);
    let mut event_ctx = EventCtx::default();
    let mut data = AppData::default();
    let env = Env::default();
    {
        let mut ctx = ReconcileCtx { event_ctx: &mut event_ctx, data: &mut data, env: &env };
        VirtualDom::<NoEvent, ()>::reconcile(&second, &first, &mut widget_seq, &mut ctx);
        assert_eq!(widget_seq.0.children_seq, (label_widget("A"), label_widget("C")));
        VirtualDom::<NoEvent, ()>::reconcile(&third, &second, &mut widget_seq, &mut ctx);
    }
    assert_eq!(widget_seq, VirtualDom::<NoEvent, ()>::init_tree(&third));
}

#[test]
fn reconcile_against_an_equal_node_changes_nothing() {
    let row = RowData { child: two_labels("A", "B") };
    let mut widget_seq = VirtualDom::<NoEvent, ()>::init_tree(&row);
    let mounted = widget_seq.clone();
    let mut event_ctx = EventCtx::default();
    let mut data = AppData::default();
    let env = Env::default();
    {
        let mut ctx = ReconcileCtx { event_ctx: &mut event_ctx, data: &mut data, env: &env };
        VirtualDom::<NoEvent, ()>::reconcile(&row, &row.clone(), &mut widget_seq, &mut ctx);
    }
    assert_eq!(widget_seq, mounted);
    assert_eq!(event_ctx, EventCtx::default());
}

#[test]
fn empty_element_beside_a_label_leaves_the_label_alone() {
    let prev = GroupData { first: LabelData { text: "A".to_string() }, second: EmptyElementData };
    let next = GroupData { first: LabelData { text: "A".to_string() }, second: EmptyElementData };
    let mut widget_seq = VirtualDom::<NoEvent, ()>::init_tree(&prev);
    assert_eq!(widget_seq, (label_widget("A"), EmptySequence));
    assert_eq!(widget_seq.len(), 1);
    assert_eq!(EmptySequence.len(), 0);
    let mut event_ctx = EventCtx { layout_requested: false, paint_requested: true };
    let mut data = AppData::default();
    let env = Env::default();
    {
        let mut ctx = ReconcileCtx { event_ctx: &mut event_ctx, data: &mut data, env: &env };
        VirtualDom::<NoEvent, ()>::reconcile(&next, &prev, &mut widget_seq, &mut ctx);
        VirtualDom::<NoEvent, ()>::reconcile(
            &EmptyElementData,
            &EmptyElementData,
            &mut widget_seq.1,
            &mut ctx,
        );
    }
    assert_eq!(widget_seq, (label_widget("A"), EmptySequence));
    assert_eq!(event_ctx, EventCtx { layout_requested: false, paint_requested: true });
}

#[test]
fn is_shown_by_tells_whether_the_widgets_match_the_node() {
    let row = RowData { child: two_labels("A", "B") };
    let mounted = VirtualDom::<NoEvent, ()>::init_tree(&row);
    assert!(VirtualDom::<NoEvent, ()>::is_shown_by(&row, &mounted));

    let other = RowData { child: two_labels("A", "C") };
    assert!(!VirtualDom::<NoEvent, ()>::is_shown_by(&other, &mounted));

    let mut turned = mounted.clone();
    turned.0.direction = Axis::Vertical;
    assert!(!VirtualDom::<NoEvent, ()>::is_shown_by(&row, &turned));
    let mut filling = mounted.clone();
    filling.0.fill_major_axis = true;
    assert!(!VirtualDom::<NoEvent, ()>::is_shown_by(&row, &filling));
    let mut spread = mounted.clone();
    spread.0.main_alignment = MainAxisAlignment::SpaceAround;
    assert!(!VirtualDom::<NoEvent, ()>::is_shown_by(&row, &spread));
    let mut lowered = mounted;
    lowered.0.cross_alignment = CrossAxisAlignment::Baseline;
    assert!(!VirtualDom::<NoEvent, ()>::is_shown_by(&row, &lowered));

    let column = ColumnData { child: two_labels("A", "B") };
    let mounted = VirtualDom::<NoEvent, ()>::init_tree(&column);
    assert!(VirtualDom::<NoEvent, ()>::is_shown_by(&column, &mounted));
    assert!(VirtualDom::<NoEvent, ()>::is_shown_by(&EmptyElementData, &EmptySequence));
}

#[test]
fn label_reconcile_takes_the_new_text() {
    let prev = LabelData { text: "old".to_string() };
    let next = LabelData { text: "new".to_string() };
    let mut widget_seq = VirtualDom::<NoEvent, ()>::init_tree(&prev);
    assert_eq!(widget_seq, label_widget("old"));
    let mut event_ctx = EventCtx::default();
    let mut data = AppData::default();
    let env = Env::default();
    {
        let mut ctx = ReconcileCtx { event_ctx: &mut event_ctx, data: &mut data, env: &env };
        VirtualDom::<NoEvent, ()>::reconcile(&next, &prev, &mut widget_seq, &mut ctx);
    }
    assert_eq!(widget_seq, label_widget("new"));
    assert!(event_ctx.layout_requested);
    assert!(!event_ctx.paint_requested);
}

#[test]
fn describe_shows_the_tree() {
    let row = Row::new(Group::new(Label::new("A"), EmptyElement::new()));
    assert_eq!(row.describe(), "Row((Label(A), EmptyElement))");
    let (node, _) = Element::<NoEvent, ()>::build(Column::new(row), ((), ()));
    assert_eq!(node.describe(), "ColumnData(RowData((LabelData(A), EmptyElementData)))");
}

#[test]
fn constructors_keep_what_they_are_given() {
    assert_eq!(Row::new(EmptyElement), Row { child: EmptyElement });
    assert_eq!(Column::new(EmptyElement), Column { child: EmptyElement });
    assert_eq!(RowData::new(EmptyElementData), RowData { child: EmptyElementData });
    assert_eq!(ColumnData::new(EmptyElementData), ColumnData { child: EmptyElementData });
    assert_eq!(SingleWidget::new(3u8), SingleWidget(3u8));
    assert_eq!(Label::new("Hello"), Label { text: "Hello".to_string() });
    assert_eq!(
        GroupData::new(EmptyElementData, EmptyElementData),
        GroupData { first: EmptyElementData, second: EmptyElementData }
    );
}
