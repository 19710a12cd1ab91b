use vstd::prelude::*;
use crate::element_tree::{
    describe_as, described, AggregateState, Describe, Element, EventPass, LocalEventPass,
    ProcessEventCtx, ReconcileCtx, VirtualDom,
};
use crate::elements::group::GroupData;
use crate::glue::{AppData, Env, EventCtx, GlobalEventCx};
use crate::widgets::flex::{Axis, CrossAxisAlignment, Flex, MainAxisAlignment};
use crate::widgets::SingleWidget;

verus! {

/// A container that lays out what it wraps from left to right.
#[derive(Default, Clone, Debug, PartialEq, Eq, Hash)]
pub struct Row<Child> {
    pub child: Child,
}

/// The virtual-DOM node of [`Row`].
#[derive(Default, Clone, Debug, PartialEq, Eq, Hash)]
pub struct RowData<Item> {
    pub child: Item,
}

/// A container that lays out what it wraps from top to bottom.
#[derive(Default, Clone, Debug, PartialEq, Eq, Hash)]
pub struct Column<Child> {
    pub child: Child,
}

/// The virtual-DOM node of [`Column`].
#[derive(Default, Clone, Debug, PartialEq, Eq, Hash)]
pub struct ColumnData<Item> {
    pub child: Item,
}

impl<Child> Row<Child> {
    pub fn new(child: Child) -> (row: Self)
        ensures
            row == (Row { child }),
    {
        Row { child }
    }
}

impl<Item> RowData<Item> {
    pub fn new(child: Item) -> (row: Self)
        ensures
            row == (RowData { child }),
    {
        RowData { child }
    }
}

impl<Child> Column<Child> {
    pub fn new(child: Child) -> (column: Self)
        ensures
            column == (Column { child }),
    {
        Column { child }
    }
}

impl<Item> ColumnData<Item> {
    pub fn new(child: Item) -> (column: Self)
        ensures
            column == (ColumnData { child }),
    {
        ColumnData { child }
    }
}

impl<Child: Describe> Describe for Row<Child> {
    open spec fn description(&self) -> Seq<char> {
        described("Row"@, self.child.description())
    }

    fn describe(&self) -> (text: String) {
        describe_as("Row", self.child.describe())
    }
}

impl<Item: Describe> Describe for RowData<Item> {
    open spec fn description(&self) -> Seq<char> {
        described("RowData"@, self.child.description())
    }

    fn describe(&self) -> (text: String) {
        describe_as("RowData", self.child.describe())
    }
}

impl<Child: Describe> Describe for Column<Child> {
    open spec fn description(&self) -> Seq<char> {
        described("Column"@, self.child.description())
    }

    fn describe(&self) -> (text: String) {
        describe_as("Column", self.child.describe())
    }
}

impl<Item: Describe> Describe for ColumnData<Item> {
    open spec fn description(&self) -> Seq<char> {
        described("ColumnData"@, self.child.description())
    }

    fn describe(&self) -> (text: String) {
        describe_as("ColumnData", self.child.describe())
    }
}

/// The container that a row or a column mounts around `children_seq`: its
/// children centred across `direction` and packed at the start along it.
pub open spec fn flex_around<Children>(direction: Axis, children_seq: Children) -> SingleWidget<
    Flex<Children>,
> {
    SingleWidget(
        Flex {
            direction,
            cross_alignment: CrossAxisAlignment::Center,
            main_alignment: MainAxisAlignment::Start,
            fill_major_axis: false,
            children_seq,
        },
    )
}

impl<CpEvent, CpState, Child: Element<CpEvent, CpState>> Element<CpEvent, CpState> for Row<Child> {
    type Event = Child::Event;

    type ComponentState = Child::ComponentState;

    type AggregateChildrenState = Child::AggregateChildrenState;

    type BuildOutput = RowData<Child::BuildOutput>;

    open spec fn wf(&self) -> bool {
        self.child.wf()
    }

    open spec fn built(
        self,
        prev_state: <Child::AggregateChildrenState as AggregateState>::Model,
    ) -> (RowData<Child::BuildOutput>, <Child::AggregateChildrenState as AggregateState>::Model) {
        let (child, state) = self.child.built(prev_state);
        (RowData { child }, state)
    }

    fn build(self, prev_state: Self::AggregateChildrenState) -> (out: (
        Self::BuildOutput,
        Self::AggregateChildrenState,
    )) {
        let (element, component_state) = self.child.build(prev_state);
        (RowData::new(element), component_state)
    }

    open spec fn component_state(
        state: &<Child::AggregateChildrenState as AggregateState>::Model,
    ) -> Option<&Child::ComponentState> {
        Child::component_state(state)
    }

    fn get_component_state(state: &Self::AggregateChildrenState) -> (local: Option<
        &Child::ComponentState,
    >) {
        Child::get_component_state(state)
    }
}

impl<CpEvent, CpState, Item: VirtualDom<CpEvent, CpState>> VirtualDom<CpEvent, CpState> for RowData<
    Item,
> {
    type Event = Item::Event;

    type AggregateChildrenState = Item::AggregateChildrenState;

    type TargetWidgetSeq = SingleWidget<Flex<Item::TargetWidgetSeq>>;

    open spec fn wf(&self) -> bool {
        self.child.wf()
    }

    open spec fn mounted(&self) -> SingleWidget<Flex<Item::TargetWidgetSeq>> {
        flex_around(Axis::Horizontal, self.child.mounted())
    }

    fn init_tree(&self) -> (widget_seq: Self::TargetWidgetSeq) {
        let widget_seq = self.child.init_tree();
        let flex = Flex {
            direction: Axis::Horizontal,
            cross_alignment: CrossAxisAlignment::Center,
            main_alignment: MainAxisAlignment::Start,
            fill_major_axis: false,
            children_seq: widget_seq,
        };
        SingleWidget::new(flex)
    }

    /// The child reconciles the container's children. The container itself
    /// stays as it was mounted.
    open spec fn reconciled(
        &self,
        other: &Self,
        widget_seq: SingleWidget<Flex<Item::TargetWidgetSeq>>,
        host: (EventCtx, AppData, Env),
    ) -> (SingleWidget<Flex<Item::TargetWidgetSeq>>, (EventCtx, AppData, Env)) {
        let (children_seq, host) = self.child.reconciled(
            &other.child,
            widget_seq.0.children_seq,
            host,
        );
        (SingleWidget(widget_seq.0.with_children(children_seq)), host)
    }

    fn reconcile(
        &self,
        other: &Self,
        widget_seq: &mut Self::TargetWidgetSeq,
        ctx: &mut ReconcileCtx,
    ) {
        self.child.reconcile(&other.child, &mut widget_seq.0.children_seq, ctx);
    }

    open spec fn shown_by(&self, widget_seq: SingleWidget<Flex<Item::TargetWidgetSeq>>) -> bool {
        &&& widget_seq.0.same_configuration(
            flex_around(Axis::Horizontal, widget_seq.0.children_seq).0,
        )
        &&& self.child.shown_by(widget_seq.0.children_seq)
    }

    fn is_shown_by(&self, widget_seq: &SingleWidget<Flex<Item::TargetWidgetSeq>>) -> (shown: bool) {
        widget_seq.0.direction == Axis::Horizontal
            && widget_seq.0.cross_alignment == CrossAxisAlignment::Center
            && widget_seq.0.main_alignment == MainAxisAlignment::Start
            && !widget_seq.0.fill_major_axis
            && self.child.is_shown_by(&widget_seq.0.children_seq)
    }

    proof fn lemma_mounted_shows(&self) {
        self.child.lemma_mounted_shows();
    }

    proof fn lemma_reconciled_shows(
        &self,
        other: &Self,
        widget_seq: SingleWidget<Flex<Item::TargetWidgetSeq>>,
        host: (EventCtx, AppData, Env),
    ) {
        self.child.lemma_reconciled_shows(&other.child, widget_seq.0.children_seq, host);
    }

    proof fn lemma_reconcile_unchanged(
        &self,
        widget_seq: SingleWidget<Flex<Item::TargetWidgetSeq>>,
        host: (EventCtx, AppData, Env),
    ) {
        self.child.lemma_reconcile_unchanged(widget_seq.0.children_seq, host);
    }

    open spec fn event_processed(
        &self,
        pass: EventPass<
            CpEvent,
            CpState,
            <Item::AggregateChildrenState as AggregateState>::Model,
            SingleWidget<Flex<Item::TargetWidgetSeq>>,
        >,
    ) -> EventPass<
        CpEvent,
        CpState,
        <Item::AggregateChildrenState as AggregateState>::Model,
        SingleWidget<Flex<Item::TargetWidgetSeq>>,
    > {
        let below = self.child.event_processed(
            EventPass {
                queue: pass.queue,
                state: pass.state,
                children_state: pass.children_state,
                widget_seq: pass.widget_seq.0.children_seq,
                cx: pass.cx,
            },
        );
        EventPass {
            queue: below.queue,
            state: below.state,
            children_state: below.children_state,
            widget_seq: SingleWidget(pass.widget_seq.0.with_children(below.widget_seq)),
            cx: below.cx,
        }
    }

    fn process_event(
        &self,
        comp_ctx: &mut ProcessEventCtx<CpEvent, CpState>,
        children_state: &mut Self::AggregateChildrenState,
        widget_seq: &mut Self::TargetWidgetSeq,
        cx: &mut GlobalEventCx,
    ) {
        self.child.process_event(comp_ctx, children_state, &mut widget_seq.0.children_seq, cx)
    }

    open spec fn local_event(
        &self,
        children_state: <Item::AggregateChildrenState as AggregateState>::Model,
        widget_seq: SingleWidget<Flex<Item::TargetWidgetSeq>>,
        cx: GlobalEventCx,
    ) -> LocalEventPass<
        Item::Event,
        <Item::AggregateChildrenState as AggregateState>::Model,
        SingleWidget<Flex<Item::TargetWidgetSeq>>,
    > {
        let below = self.child.local_event(children_state, widget_seq.0.children_seq, cx);
        LocalEventPass {
            event: below.event,
            children_state: below.children_state,
            widget_seq: SingleWidget(widget_seq.0.with_children(below.widget_seq)),
            cx: below.cx,
        }
    }

    fn process_local_event(
        &self,
        children_state: &mut Self::AggregateChildrenState,
        widget_seq: &mut Self::TargetWidgetSeq,
        cx: &mut GlobalEventCx,
    ) -> (event: Option<Item::Event>) {
        self.child.process_local_event(children_state, &mut widget_seq.0.children_seq, cx)
    }
}

impl<CpEvent, CpState, Child: Element<CpEvent, CpState>> Element<CpEvent, CpState> for Column<
    Child,
> {
    type Event = Child::Event;

    type ComponentState = Child::ComponentState;

    type AggregateChildrenState = Child::AggregateChildrenState;

    type BuildOutput = ColumnData<Child::BuildOutput>;

    open spec fn wf(&self) -> bool {
        self.child.wf()
    }

    open spec fn built(
        self,
        prev_state: <Child::AggregateChildrenState as AggregateState>::Model,
    ) -> (
        ColumnData<Child::BuildOutput>,
        <Child::AggregateChildrenState as AggregateState>::Model,
    ) {
        let (child, state) = self.child.built(prev_state);
        (ColumnData { child }, state)
    }

    fn build(self, prev_state: Self::AggregateChildrenState) -> (out: (
        Self::BuildOutput,
        Self::AggregateChildrenState,
    )) {
        let (element, component_state) = self.child.build(prev_state);
        (ColumnData::new(element), component_state)
    }

    open spec fn component_state(
        state: &<Child::AggregateChildrenState as AggregateState>::Model,
    ) -> Option<&Child::ComponentState> {
        Child::component_state(state)
    }

    fn get_component_state(state: &Self::AggregateChildrenState) -> (local: Option<
        &Child::ComponentState,
    >) {
        Child::get_component_state(state)
    }
}

impl<CpEvent, CpState, Item: VirtualDom<CpEvent, CpState>> VirtualDom<
    CpEvent,
    CpState,
> for ColumnData<Item> {
    type Event = Item::Event;

    type AggregateChildrenState = Item::AggregateChildrenState;

    type TargetWidgetSeq = SingleWidget<Flex<Item::TargetWidgetSeq>>;

    open spec fn wf(&self) -> bool {
        self.child.wf()
    }

    open spec fn mounted(&self) -> SingleWidget<Flex<Item::TargetWidgetSeq>> {
        flex_around(Axis::Vertical, self.child.mounted())
    }

    fn init_tree(&self) -> (widget_seq: Self::TargetWidgetSeq) {
        let widget_seq = self.child.init_tree();
        let flex = Flex {
            direction: Axis::Vertical,
            cross_alignment: CrossAxisAlignment::Center,
            main_alignment: MainAxisAlignment::Start,
            fill_major_axis: false,
            children_seq: widget_seq,
        };
        SingleWidget::new(flex)
    }

    /// The child reconciles the container's children. The container itself
    /// stays as it was mounted.
    open spec fn reconciled(
        &self,
        other: &Self,
        widget_seq: SingleWidget<Flex<Item::TargetWidgetSeq>>,
        host: (EventCtx, AppData, Env),
    ) -> (SingleWidget<Flex<Item::TargetWidgetSeq>>, (EventCtx, AppData, Env)) {
        let (children_seq, host) = self.child.reconciled(
            &other.child,
            widget_seq.0.children_seq,
            host,
        );
        (SingleWidget(widget_seq.0.with_children(children_seq)), host)
    }

    fn reconcile(
        &self,
        other: &Self,
        widget_seq: &mut Self::TargetWidgetSeq,
        ctx: &mut ReconcileCtx,
    ) {
        self.child.reconcile(&other.child, &mut widget_seq.0.children_seq, ctx);
    }

    open spec fn shown_by(&self, widget_seq: SingleWidget<Flex<Item::TargetWidgetSeq>>) -> bool {
        &&& widget_seq.0.same_configuration(
            flex_around(Axis::Vertical, widget_seq.0.children_seq).0,
        )
        &&& self.child.shown_by(widget_seq.0.children_seq)
    }

    fn is_shown_by(&self, widget_seq: &SingleWidget<Flex<Item::TargetWidgetSeq>>) -> (shown: bool) {
        widget_seq.0.direction == Axis::Vertical
            && widget_seq.0.cross_alignment == CrossAxisAlignment::Center
            && widget_seq.0.main_alignment == MainAxisAlignment::Start
            && !widget_seq.0.fill_major_axis
            && self.child.is_shown_by(&widget_seq.0.children_seq)
    }

    proof fn lemma_mounted_shows(&self) {
        self.child.lemma_mounted_shows();
    }

    proof fn lemma_reconciled_shows(
        &self,
        other: &Self,
        widget_seq: SingleWidget<Flex<Item::TargetWidgetSeq>>,
        host: (EventCtx, AppData, Env),
    ) {
        self.child.lemma_reconciled_shows(&other.child, widget_seq.0.children_seq, host);
    }

    proof fn lemma_reconcile_unchanged(
        &self,
        widget_seq: SingleWidget<Flex<Item::TargetWidgetSeq>>,
        host: (EventCtx, AppData, Env),
    ) {
        self.child.lemma_reconcile_unchanged(widget_seq.0.children_seq, host);
    }

    open spec fn event_processed(
        &self,
        pass: EventPass<
            CpEvent,
            CpState,
            <Item::AggregateChildrenState as AggregateState>::Model,
            SingleWidget<Flex<Item::TargetWidgetSeq>>,
        >,
    ) -> EventPass<
        CpEvent,
        CpState,
        <Item::AggregateChildrenState as AggregateState>::Model,
        SingleWidget<Flex<Item::TargetWidgetSeq>>,
    > {
        let below = self.child.event_processed(
            EventPass {
                queue: pass.queue,
                state: pass.state,
                children_state: pass.children_state,
                widget_seq: pass.widget_seq.0.children_seq,
                cx: pass.cx,
            },
        );
        EventPass {
            queue: below.queue,
            state: below.state,
            children_state: below.children_state,
            widget_seq: SingleWidget(pass.widget_seq.0.with_children(below.widget_seq)),
            cx: below.cx,
        }
    }

    fn process_event(
        &self,
        comp_ctx: &mut ProcessEventCtx<CpEvent, CpState>,
        children_state: &mut Self::AggregateChildrenState,
        widget_seq: &mut Self::TargetWidgetSeq,
        cx: &mut GlobalEventCx,
    ) {
        self.child.process_event(comp_ctx, children_state, &mut widget_seq.0.children_seq, cx)
    }

    open spec fn local_event(
        &self,
        children_state: <Item::AggregateChildrenState as AggregateState>::Model,
        widget_seq: SingleWidget<Flex<Item::TargetWidgetSeq>>,
        cx: GlobalEventCx,
    ) -> LocalEventPass<
        Item::Event,
        <Item::AggregateChildrenState as AggregateState>::Model,
        SingleWidget<Flex<Item::TargetWidgetSeq>>,
    > {
        let below = self.child.local_event(children_state, widget_seq.0.children_seq, cx);
        LocalEventPass {
            event: below.event,
            children_state: below.children_state,
            widget_seq: SingleWidget(widget_seq.0.with_children(below.widget_seq)),
            cx: below.cx,
        }
    }

    fn process_local_event(
        &self,
        children_state: &mut Self::AggregateChildrenState,
        widget_seq: &mut Self::TargetWidgetSeq,
        cx: &mut GlobalEventCx,
    ) -> (event: Option<Item::Event>) {
        self.child.process_local_event(children_state, &mut widget_seq.0.children_seq, cx)
    }
}

/// Reconciling a row passes through to what it wraps and reaches no widget
/// but those of what changed. Where a row holds two nodes and only the first
/// differs from the one it is reconciled against, the first node's widgets
/// become what the first node alone makes of them, the second node's widgets
/// stay as they are, and so does the container's own configuration.
pub proof fn lemma_row_reconciles_changed_child_only<
    CpEvent,
    CpState,
    First: VirtualDom<CpEvent, CpState>,
    Second: VirtualDom<CpEvent, CpState>,
>(
    first: First,
    prev_first: First,
    second: Second,
    widget_seq: SingleWidget<Flex<(First::TargetWidgetSeq, Second::TargetWidgetSeq)>>,
    host: (EventCtx, AppData, Env),
)
    requires
        second.wf(),
    ensures
        ({
            let row = RowData { child: GroupData { first, second } };
            let prev_row = RowData { child: GroupData { first: prev_first, second } };
            let after = row.reconciled(&prev_row, widget_seq, host).0;
            &&& after.0.children_seq.0 == first.reconciled(
                &prev_first,
                widget_seq.0.children_seq.0,
                host,
            ).0
            &&& after.0.children_seq.1 == widget_seq.0.children_seq.1
            &&& after.0.same_configuration(widget_seq.0)
        }),
{
    let host = first.reconciled(&prev_first, widget_seq.0.children_seq.0, host).1;
    second.lemma_reconcile_unchanged(widget_seq.0.children_seq.1, host);
}

/// Reconciling a column passes through to what it wraps and reaches no widget
/// but those of what changed. Where a column holds two nodes and only the first
/// differs from the one it is reconciled against, the first node's widgets
/// become what the first node alone makes of them, the second node's widgets
/// stay as they are, and so does the container's own configuration.
pub proof fn lemma_column_reconciles_changed_child_only<
    CpEvent,
    CpState,
    First: VirtualDom<CpEvent, CpState>,
    Second: VirtualDom<CpEvent, CpState>,
>(
    first: First,
    prev_first: First,
    second: Second,
    widget_seq: SingleWidget<Flex<(First::TargetWidgetSeq, Second::TargetWidgetSeq)>>,
    host: (EventCtx, AppData, Env),
)
    requires
        second.wf(),
    ensures
        ({
            let column = ColumnData { child: GroupData { first, second } };
            let prev_column = ColumnData { child: GroupData { first: prev_first, second } };
            let after = column.reconciled(&prev_column, widget_seq, host).0;
            &&& after.0.children_seq.0 == first.reconciled(
                &prev_first,
                widget_seq.0.children_seq.0,
                host,
            ).0
            &&& after.0.children_seq.1 == widget_seq.0.children_seq.1
            &&& after.0.same_configuration(widget_seq.0)
        }),
{
    let host = first.reconciled(&prev_first, widget_seq.0.children_seq.0, host).1;
    second.lemma_reconcile_unchanged(widget_seq.0.children_seq.1, host);
}

} // verus!
