use popup::{
    resolve_placement, ButtonState, GraphOp, Handle, MouseButton, NodeHandleMapping, OsEvent, Placement, Point,
    PopupBuilder, PopupMessage, Rect, Size, UiMessage, UiMessageData, UserInterface, WidgetBuilder, WidgetMessage,
};

fn screen() -> UserInterface {
    UserInterface::new(Size::new(800, 600))
}

fn build(ui: &mut UserInterface, placement: Placement, stays_open: bool, content: Handle) -> Handle {
    PopupBuilder::new(
        WidgetBuilder::new().with_size(Size::new(100, 50)).with_desired_position(Point::new(100, 100)),
    )
    .with_placement(placement)
    .stays_open(stays_open)
    .with_content(content)
    .build(ui)
}

fn open(ui: &mut UserInterface, h: Handle) {
    let mut p = ui.popup(h).unwrap();
    p.open(ui);
    ui.store_popup(p);
}

fn close(ui: &mut UserInterface, h: Handle) {
    let mut p = ui.popup(h).unwrap();
    p.close(ui);
    ui.store_popup(p);
}

fn press() -> OsEvent {
    OsEvent::MouseInput { button: MouseButton::Left, state: ButtonState::Pressed }
}

fn move_to(ui: &mut UserInterface, x: i64, y: i64) {
    ui.process_os_event(&OsEvent::CursorMoved { position: Point::new(x, y) });
}

fn opened_position(placement: Placement) -> Point {
    let mut ui = screen();
    move_to(&mut ui, 17, 23);
    let h = build(&mut ui, placement, false, Handle::none());
    open(&mut ui, h);
    ui.flush_messages();
    ui.popup(h).unwrap().widget().desired_local_position
}

#[test]
fn placements_on_800_by_600() {
    let screen = Size::new(800, 600);
    let size = Size::new(100, 50);
    let cursor = Point::new(17, 23);
    assert_eq!(resolve_placement(Placement::RightBottom, size, screen, cursor), Point::new(700, 550));
    assert_eq!(resolve_placement(Placement::Center, size, screen, cursor), Point::new(350, 275));
    assert_eq!(resolve_placement(Placement::LeftTop, size, screen, cursor), Point::new(0, 0));
    assert_eq!(resolve_placement(Placement::LeftBottom, size, screen, cursor), Point::new(0, 550));
    assert_eq!(resolve_placement(Placement::RightTop, size, screen, cursor), Point::new(700, 0));
    assert_eq!(resolve_placement(Placement::Cursor, size, screen, cursor), cursor);
    let p = Point::new(-5, 1234);
    assert_eq!(resolve_placement(Placement::Position(p), size, screen, cursor), p);
}

#[test]
fn open_applies_placement() {
    assert_eq!(opened_position(Placement::RightBottom), Point::new(700, 550));
    assert_eq!(opened_position(Placement::Center), Point::new(350, 275));
    assert_eq!(opened_position(Placement::LeftTop), Point::new(0, 0));
    assert_eq!(opened_position(Placement::LeftBottom), Point::new(0, 550));
    assert_eq!(opened_position(Placement::RightTop), Point::new(700, 0));
    assert_eq!(opened_position(Placement::Cursor), Point::new(17, 23));
    assert_eq!(opened_position(Placement::Position(Point::new(3, 4))), Point::new(3, 4));
}

#[test]
fn center_rounds_down() {
    let cursor = Point::zero();
    assert_eq!(resolve_placement(Placement::Center, Size::new(100, 50), Size::new(801, 601), cursor), Point::new(350, 275));
    assert_eq!(resolve_placement(Placement::Center, Size::new(901, 50), Size::new(800, 600), cursor), Point::new(-51, 275));
    assert_eq!(resolve_placement(Placement::RightBottom, Size::new(900, 700), Size::new(800, 600), cursor), Point::new(-100, -100));
}

#[test]
fn build_registers_hidden_closed_popup() {
    let mut ui = screen();
    let content = Handle::new(40, 1);
    let h = build(&mut ui, Placement::Center, false, content);
    assert_eq!(h, Handle::new(2, 1));
    let body = Handle::new(1, 1);
    assert_eq!(
        ui.graph_ops().clone(),
        vec![GraphOp::Add(body), GraphOp::Link { child: content, parent: body }, GraphOp::Add(h), GraphOp::Link { child: body, parent: h }]
    );
    let p = ui.popup(h).unwrap();
    assert!(!p.is_open());
    assert!(!p.widget().visible);
    assert_eq!(p.body(), body);
    assert_eq!(p.content(), content);
    assert_eq!(p.placement(), Placement::Center);
    assert!(!p.stays_open());
    assert!(ui.pending_messages().is_empty());
}

#[test]
fn builder_defaults() {
    let mut ui = screen();
    let h = PopupBuilder::new(WidgetBuilder::new()).build(&mut ui);
    let p = ui.popup(h).unwrap();
    assert_eq!(p.placement(), Placement::Cursor);
    assert!(!p.stays_open());
    assert!(p.content().is_none());
    assert_eq!(ui.graph_ops().len(), 3);
}

#[test]
fn open_on_open_popup_is_a_no_op() {
    let mut ui = screen();
    let h = build(&mut ui, Placement::Center, false, Handle::none());
    open(&mut ui, h);
    assert_eq!(ui.pending_messages().clone(), vec![UiMessage::popup(h, PopupMessage::Open)]);
    ui.flush_messages();
    assert!(ui.popup(h).unwrap().is_open());
    assert_eq!(ui.picking_stack().clone(), vec![h]);
    ui.flush_messages();
    assert!(ui.pending_messages().is_empty());
    open(&mut ui, h);
    assert!(ui.pending_messages().is_empty());
    assert_eq!(ui.picking_stack().clone(), vec![h]);
}

#[test]
fn second_open_message_pushes_nothing() {
    let mut ui = screen();
    let h = build(&mut ui, Placement::Center, false, Handle::none());
    open(&mut ui, h);
    open(&mut ui, h);
    assert_eq!(ui.pending_messages().len(), 2);
    ui.flush_messages();
    assert_eq!(ui.picking_stack().clone(), vec![h]);
    assert_eq!(ui.pending_messages().clone(), vec![UiMessage::widget(h, WidgetMessage::TopMost)]);
}

#[test]
fn close_on_closed_popup_is_a_no_op() {
    let mut ui = screen();
    let other = Handle::new(90, 1);
    ui.push_picking_restriction(other);
    let h = build(&mut ui, Placement::Center, false, Handle::none());
    ui.capture_mouse(h);
    close(&mut ui, h);
    assert!(ui.pending_messages().is_empty());
    ui.send_message(UiMessage::popup(h, PopupMessage::Close));
    ui.flush_messages();
    assert_eq!(ui.picking_stack().clone(), vec![other]);
    assert_eq!(ui.captured_node(), h);
}

#[test]
fn open_close_cycle_restores_stack() {
    let mut ui = screen();
    let other = Handle::new(90, 1);
    ui.push_picking_restriction(other);
    let h = build(&mut ui, Placement::Center, false, Handle::none());
    open(&mut ui, h);
    ui.flush_messages();
    assert_eq!(ui.picking_stack().clone(), vec![other, h]);
    close(&mut ui, h);
    ui.flush_messages();
    assert_eq!(ui.picking_stack().clone(), vec![other]);
    assert!(!ui.popup(h).unwrap().is_open());
    assert!(!ui.popup(h).unwrap().widget().visible);
}

#[test]
fn open_when_already_on_top_does_not_push() {
    let mut ui = screen();
    let h = build(&mut ui, Placement::Center, false, Handle::none());
    ui.push_picking_restriction(h);
    open(&mut ui, h);
    ui.flush_messages();
    assert_eq!(ui.picking_stack().clone(), vec![h]);
}

#[test]
fn stays_open_cycle_leaves_stack_alone() {
    let mut ui = screen();
    let other = Handle::new(90, 1);
    ui.push_picking_restriction(other);
    let h = build(&mut ui, Placement::Center, true, Handle::none());
    open(&mut ui, h);
    ui.flush_messages();
    assert_eq!(ui.picking_stack().clone(), vec![other]);
    assert!(ui.popup(h).unwrap().is_open());
    close(&mut ui, h);
    ui.flush_messages();
    assert_eq!(ui.picking_stack().clone(), vec![other]);
    assert!(!ui.popup(h).unwrap().is_open());
}

#[test]
fn close_releases_own_capture_only() {
    let mut ui = screen();
    let h = build(&mut ui, Placement::Center, false, Handle::none());
    open(&mut ui, h);
    ui.flush_messages();
    ui.capture_mouse(h);
    close(&mut ui, h);
    ui.flush_messages();
    assert!(ui.captured_node().is_none());

    let other = Handle::new(77, 1);
    open(&mut ui, h);
    ui.flush_messages();
    ui.capture_mouse(other);
    close(&mut ui, h);
    ui.flush_messages();
    assert_eq!(ui.captured_node(), other);
}

#[test]
fn open_brings_popup_to_top_at_next_flush() {
    let mut ui = screen();
    let h = build(&mut ui, Placement::Center, false, Handle::none());
    let before = ui.graph_ops().len();
    open(&mut ui, h);
    ui.flush_messages();
    assert_eq!(ui.graph_ops().len(), before);
    ui.flush_messages();
    assert_eq!(ui.graph_ops().len(), before + 1);
    assert_eq!(ui.graph_ops()[before], GraphOp::BringToTop(h));
}

#[test]
fn content_replacement() {
    let mut ui = screen();
    let a = Handle::new(50, 1);
    let b = Handle::new(51, 1);
    let h = build(&mut ui, Placement::Center, false, a);
    let body = ui.popup(h).unwrap().body();
    let before = ui.graph_ops().len();
    ui.send_message(UiMessage::popup(h, PopupMessage::Content(b)));
    ui.flush_messages();
    assert_eq!(ui.graph_ops()[before..].to_vec(), vec![GraphOp::Remove(a), GraphOp::Link { child: b, parent: body }]);
    assert_eq!(ui.popup(h).unwrap().content(), b);
    assert_eq!(ui.popup(h).unwrap().body(), body);

    let before = ui.graph_ops().len();
    ui.send_message(UiMessage::popup(h, PopupMessage::Content(Handle::none())));
    ui.flush_messages();
    assert_eq!(ui.graph_ops()[before..].to_vec(), vec![GraphOp::Remove(b)]);
    assert!(ui.popup(h).unwrap().content().is_none());

    let before = ui.graph_ops().len();
    ui.send_message(UiMessage::popup(h, PopupMessage::Content(a)));
    ui.flush_messages();
    assert_eq!(ui.graph_ops()[before..].to_vec(), vec![GraphOp::Link { child: a, parent: body }]);
}

#[test]
fn message_for_other_node_is_ignored() {
    let mut ui = screen();
    let h = build(&mut ui, Placement::Center, false, Handle::none());
    let mut p = ui.popup(h).unwrap();
    p.handle_routed_message(&mut ui, &UiMessage::popup(Handle::new(99, 1), PopupMessage::Open));
    assert!(!p.is_open());
    assert!(ui.picking_stack().is_empty());
    assert!(ui.pending_messages().is_empty());
}

#[test]
fn set_placement_only_when_changed() {
    let mut ui = screen();
    let h = build(&mut ui, Placement::Center, false, Handle::none());
    let mut p = ui.popup(h).unwrap();
    p.set_placement(&mut ui, Placement::Center);
    assert!(ui.pending_messages().is_empty());
    p.set_placement(&mut ui, Placement::LeftTop);
    assert_eq!(p.placement(), Placement::LeftTop);
    assert!(!p.widget().layout_valid);
    assert_eq!(ui.pending_messages().clone(), vec![UiMessage::popup(h, PopupMessage::Placement(Placement::LeftTop))]);
    ui.store_popup(p);
    ui.flush_messages();
    assert_eq!(ui.popup(h).unwrap().placement(), Placement::LeftTop);
}

#[test]
fn placement_message_changes_placement() {
    let mut ui = screen();
    let h = build(&mut ui, Placement::Center, false, Handle::none());
    ui.send_message(UiMessage::popup(h, PopupMessage::Placement(Placement::RightTop)));
    ui.flush_messages();
    assert_eq!(ui.popup(h).unwrap().placement(), Placement::RightTop);
    open(&mut ui, h);
    ui.flush_messages();
    assert_eq!(ui.popup(h).unwrap().widget().desired_local_position, Point::new(700, 0));
}

#[test]
fn outside_press_closes_open_top_popup() {
    let mut ui = screen();
    let h = build(&mut ui, Placement::Position(Point::new(100, 100)), false, Handle::none());
    open(&mut ui, h);
    ui.flush_messages();
    ui.flush_messages();
    move_to(&mut ui, 10, 10);
    assert!(ui.pending_messages().is_empty());
    ui.process_os_event(&press());
    assert_eq!(ui.pending_messages().clone(), vec![UiMessage::popup(h, PopupMessage::Close)]);
    assert!(ui.popup(h).unwrap().is_open());
    ui.flush_messages();
    assert!(!ui.popup(h).unwrap().is_open());
    assert!(ui.picking_stack().is_empty());
}

#[test]
fn outside_press_spares_stays_open_popup() {
    let mut ui = screen();
    let h = build(&mut ui, Placement::Position(Point::new(100, 100)), true, Handle::none());
    open(&mut ui, h);
    ui.flush_messages();
    ui.flush_messages();
    ui.push_picking_restriction(h);
    move_to(&mut ui, 10, 10);
    ui.process_os_event(&press());
    assert!(ui.pending_messages().is_empty());
    assert!(ui.popup(h).unwrap().is_open());
}

#[test]
fn outside_press_spares_popup_not_on_top() {
    let mut ui = screen();
    let h = build(&mut ui, Placement::Position(Point::new(100, 100)), false, Handle::none());
    open(&mut ui, h);
    ui.flush_messages();
    ui.flush_messages();
    ui.push_picking_restriction(Handle::new(90, 1));
    move_to(&mut ui, 10, 10);
    ui.process_os_event(&press());
    assert!(ui.pending_messages().is_empty());
}

#[test]
fn outside_press_spares_closed_popup() {
    let mut ui = screen();
    let h = build(&mut ui, Placement::Position(Point::new(100, 100)), false, Handle::none());
    ui.push_picking_restriction(h);
    move_to(&mut ui, 10, 10);
    ui.process_os_event(&press());
    assert!(ui.pending_messages().is_empty());
}

#[test]
fn release_outside_does_not_dismiss() {
    let mut ui = screen();
    let h = build(&mut ui, Placement::Position(Point::new(100, 100)), false, Handle::none());
    open(&mut ui, h);
    ui.flush_messages();
    ui.flush_messages();
    move_to(&mut ui, 10, 10);
    ui.process_os_event(&OsEvent::MouseInput { button: MouseButton::Left, state: ButtonState::Released });
    assert!(ui.pending_messages().is_empty());
}

#[test]
fn inside_press_never_dismisses() {
    for stays_open in [false, true] {
        let mut ui = screen();
        let h = build(&mut ui, Placement::Position(Point::new(100, 100)), stays_open, Handle::none());
        open(&mut ui, h);
        ui.flush_messages();
        ui.flush_messages();
        if stays_open {
            ui.push_picking_restriction(h);
        }
        for (x, y) in [(150, 120), (100, 100), (200, 150)] {
            move_to(&mut ui, x, y);
            ui.process_os_event(&press());
            assert!(ui.pending_messages().is_empty());
        }
        assert!(ui.popup(h).unwrap().is_open());
    }
}

#[test]
fn direct_os_event_queues_close() {
    let mut ui = screen();
    let h = build(&mut ui, Placement::Position(Point::new(100, 100)), false, Handle::none());
    open(&mut ui, h);
    ui.flush_messages();
    let mut p = ui.popup(h).unwrap();
    ui.set_cursor_position(Point::new(500, 500));
    p.handle_os_event(h, &mut ui, &press());
    assert!(!p.widget().layout_valid);
    assert_eq!(ui.pending_messages().last(), Some(&UiMessage::popup(h, PopupMessage::Close)));
}

#[test]
fn raw_copy_starts_closed() {
    let mut ui = screen();
    let content = Handle::new(50, 1);
    let h = build(&mut ui, Placement::LeftBottom, true, content);
    open(&mut ui, h);
    ui.flush_messages();
    let copy = ui.popup(h).unwrap().raw_copy();
    assert!(!copy.is_open());
    assert!(!copy.stays_open());
    assert_eq!(copy.placement(), Placement::LeftBottom);
    assert_eq!(copy.content(), content);
    assert_eq!(copy.body(), Handle::new(1, 1));
}

#[test]
fn resolve_rewrites_handles() {
    let mut ui = screen();
    let content = Handle::new(50, 1);
    let h = build(&mut ui, Placement::Center, false, content);
    let mut p = ui.popup(h).unwrap();
    let mut map = NodeHandleMapping::new();
    map.insert(Handle::new(1, 1), Handle::new(11, 2));
    map.insert(content, Handle::new(60, 3));
    map.insert(content, Handle::new(70, 3));
    p.resolve(&map);
    assert_eq!(p.body(), Handle::new(11, 2));
    assert_eq!(p.content(), Handle::new(60, 3));

    let mut q = ui.popup(h).unwrap();
    let mut body_only = NodeHandleMapping::new();
    body_only.insert(Handle::new(1, 1), Handle::new(12, 2));
    q.resolve(&body_only);
    assert_eq!(q.body(), Handle::new(12, 2));
    assert_eq!(q.content(), content);
}

#[test]
fn mapping_lookup() {
    let mut map = NodeHandleMapping::new();
    assert_eq!(map.get(&Handle::new(1, 1)), None);
    map.insert(Handle::new(1, 1), Handle::new(2, 1));
    map.insert(Handle::new(3, 1), Handle::new(4, 1));
    assert_eq!(map.get(&Handle::new(3, 1)), Some(Handle::new(4, 1)));
    assert_eq!(map.get(&Handle::new(3, 2)), None);
}

#[test]
fn rect_contains_edges() {
    let r = Rect::new(Point::new(100, 100), Size::new(100, 50));
    assert!(r.contains(100, 100));
    assert!(r.contains(200, 150));
    assert!(!r.contains(201, 150));
    assert!(!r.contains(99, 120));
    assert!(!r.contains(150, 151));
}

#[test]
fn handle_presence() {
    assert!(Handle::none().is_none());
    assert!(!Handle::none().is_some());
    assert!(Handle::new(0, 1).is_some());
}

#[test]
fn widget_messages_reach_graph() {
    let mut ui = screen();
    let target = Handle::new(5, 1);
    ui.send_message(UiMessage::widget(target, WidgetMessage::TopMost));
    ui.flush_messages();
    assert_eq!(ui.graph_ops().clone(), vec![GraphOp::BringToTop(target)]);
    let m = UiMessage::widget(target, WidgetMessage::TopMost);
    assert_eq!(m.data, UiMessageData::Widget(WidgetMessage::TopMost));
    assert!(!m.handled);
}
