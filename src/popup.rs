use vstd::prelude::*;

use crate::geometry::Point;
use crate::handle::{has_key, lookup, Handle, NodeHandleMapping};
use crate::message::{ButtonState, OsEvent, PopupMessage, UiMessage, UiMessageData, WidgetMessage};
use crate::placement::{placement_position, resolve_placement, Placement};
use crate::ui::{deliver_all, popped, top_of, GraphOp, UiState, UserInterface};
use crate::widget::{Widget, WidgetBuilder};

verus! {

/// The fields of a popup, as seen by contracts.
pub struct PopupState {
    pub widget: Widget,
    pub placement: Placement,
    /// When set, the popup never touches the picking-restriction stack and
    /// ignores presses outside it.
    pub stays_open: bool,
    pub is_open: bool,
    /// The payload under `body`, or the absent handle.
    pub content: Handle,
    /// The wrapper node that holds the content; made once by the builder.
    pub body: Handle,
}

impl PopupState {
    /// The popup's handle is its widget's.
    pub open spec fn handle(self) -> Handle {
        self.widget.handle
    }

    /// Well-formed: the logical state and the visibility agree, and the body exists.
    pub open spec fn wf(self) -> bool {
        &&& self.is_open == self.widget.visible
        &&& self.body.is_present()
    }
}

/// The message that `open`, `close` and `set_placement` queue for `p`.
pub open spec fn request(p: PopupState, msg: PopupMessage) -> UiMessage {
    UiMessage { data: UiMessageData::Popup(msg), destination: p.handle(), handled: false }
}

/// The effect of an Open message: nothing if the popup is open already.
pub open spec fn open_step(p: PopupState, ui: UiState) -> (PopupState, UiState) {
    if p.is_open {
        (p, ui)
    } else {
        let h = p.handle();
        let stack = if !p.stays_open && top_of(ui.picking_stack) != h {
            ui.picking_stack.push(h)
        } else {
            ui.picking_stack
        };
        let pos = placement_position(p.placement, p.widget.actual_size, ui.screen_size, ui.cursor_position);
        let topmost = UiMessage { data: UiMessageData::Widget(WidgetMessage::TopMost), destination: h, handled: false };
        (
            PopupState {
                is_open: true,
                widget: Widget {
                    visible: true,
                    desired_local_position: Point { x: pos.0 as i64, y: pos.1 as i64 },
                    ..p.widget
                },
                ..p
            },
            UiState { picking_stack: stack, messages: ui.messages.push(topmost), ..ui },
        )
    }
}

/// The effect of a Close message: nothing if the popup is closed already.
pub open spec fn close_step(p: PopupState, ui: UiState) -> (PopupState, UiState) {
    if !p.is_open {
        (p, ui)
    } else {
        let stack = if !p.stays_open { popped(ui.picking_stack) } else { ui.picking_stack };
        let captured = if ui.captured == p.handle() { Handle { index: 0, generation: 0 } } else { ui.captured };
        (
            PopupState { is_open: false, widget: Widget { visible: false, ..p.widget }, ..p },
            UiState { picking_stack: stack, captured, ..ui },
        )
    }
}

/// The effect of a Content message: the old content, if any, is removed, and
/// the new one, if any, is linked under the body.
pub open spec fn content_step(p: PopupState, ui: UiState, content: Handle) -> (PopupState, UiState) {
    let removed = if p.content.is_present() {
        ui.graph.push(GraphOp::Remove(p.content))
    } else {
        ui.graph
    };
    let linked = if content.is_present() {
        removed.push(GraphOp::Link { child: content, parent: p.body })
    } else {
        removed
    };
    (PopupState { content, ..p }, UiState { graph: linked, ..ui })
}

/// The effect of a Placement message.
pub open spec fn placement_step(p: PopupState, ui: UiState, placement: Placement) -> (PopupState, UiState) {
    (PopupState { placement, widget: Widget { layout_valid: false, ..p.widget }, ..p }, ui)
}

/// The effect of delivering `msg` to the popup `p`.
pub open spec fn routed_step(p: PopupState, ui: UiState, msg: UiMessage) -> (PopupState, UiState) {
    if msg.destination != p.handle() {
        (p, ui)
    } else {
        match msg.data {
            UiMessageData::Popup(PopupMessage::Open) => open_step(p, ui),
            UiMessageData::Popup(PopupMessage::Close) => close_step(p, ui),
            UiMessageData::Popup(PopupMessage::Content(c)) => content_step(p, ui, c),
            UiMessageData::Popup(PopupMessage::Placement(pl)) => placement_step(p, ui, pl),
            UiMessageData::Widget(_) => (p, ui),
        }
    }
}

/// Whether `event` makes the open popup `p` dismiss itself: a press while it
/// is open, holds the top of the stack, may close on its own and the pointer
/// is outside its screen bounds.
pub open spec fn dismisses(p: PopupState, self_handle: Handle, ui: UiState, event: OsEvent) -> bool {
    &&& event matches OsEvent::MouseInput { state: ButtonState::Pressed, .. }
    &&& top_of(ui.picking_stack) == self_handle
    &&& p.is_open
    &&& !p.stays_open
    &&& !p.widget.spec_screen_bounds().spec_contains(ui.cursor_position.x as int, ui.cursor_position.y as int)
}

/// An overlay that opens above the other widgets, optionally takes exclusive
/// picking, and closes on a press outside it.
#[derive(Clone, Copy, Debug)]
pub struct Popup {
    widget: Widget,
    placement: Placement,
    stays_open: bool,
    is_open: bool,
    content: Handle,
    body: Handle,
}

impl View for Popup {
    type V = PopupState;

    closed spec fn view(&self) -> PopupState {
        PopupState {
            widget: self.widget,
            placement: self.placement,
            stays_open: self.stays_open,
            is_open: self.is_open,
            content: self.content,
            body: self.body,
        }
    }
}

impl Popup {
    pub fn handle(&self) -> (r: Handle)
        ensures
            r == self@.handle(),
    {
        self.widget.handle
    }

    pub fn widget(&self) -> (r: Widget)
        ensures
            r == self@.widget,
    {
        self.widget
    }

    pub fn placement(&self) -> (r: Placement)
        ensures
            r == self@.placement,
    {
        self.placement
    }

    pub fn is_open(&self) -> (r: bool)
        ensures
            r == self@.is_open,
    {
        self.is_open
    }

    pub fn stays_open(&self) -> (r: bool)
        ensures
            r == self@.stays_open,
    {
        self.stays_open
    }

    pub fn content(&self) -> (r: Handle)
        ensures
            r == self@.content,
    {
        self.content
    }

    pub fn body(&self) -> (r: Handle)
        ensures
            r == self@.body,
    {
        self.body
    }

    fn apply_open(&mut self, ui: &mut UserInterface)
        ensures
            (final(self)@, final(ui)@) == open_step(old(self)@, old(ui)@),
    {
        if self.is_open {
            return;
        }
        let handle = self.widget.handle;
        self.is_open = true;
        self.widget.set_visibility(true);
        if !self.stays_open {
            if ui.top_picking_restriction() != handle {
                ui.push_picking_restriction(handle);
            }
        }
        ui.send_message(UiMessage::widget(handle, WidgetMessage::TopMost));
        let position = resolve_placement(self.placement, self.widget.actual_size, ui.screen_size(), ui.cursor_position());
        self.widget.set_desired_local_position(position);
    }

    fn apply_close(&mut self, ui: &mut UserInterface)
        ensures
            (final(self)@, final(ui)@) == close_step(old(self)@, old(ui)@),
    {
        if !self.is_open {
            return;
        }
        self.is_open = false;
        self.widget.set_visibility(false);
        if !self.stays_open {
            ui.pop_picking_restriction();
        }
        if ui.captured_node() == self.widget.handle {
            ui.release_mouse_capture();
        }
    }

    fn apply_content(&mut self, ui: &mut UserInterface, content: Handle)
        ensures
            (final(self)@, final(ui)@) == content_step(old(self)@, old(ui)@, content),
    {
        if self.content.is_some() {
            ui.remove_node(self.content);
        }
        self.content = content;
        if content.is_some() {
            ui.link_nodes(content, self.body);
        }
    }

    /// Applies a message routed to this popup; messages for other nodes, and
    /// widget messages, leave everything as it was.
    pub fn handle_routed_message(&mut self, ui: &mut UserInterface, message: &UiMessage)
        ensures
            (final(self)@, final(ui)@) == routed_step(old(self)@, old(ui)@, *message),
    {
        if message.destination != self.widget.handle {
            return;
        }
        match message.data {
            UiMessageData::Popup(PopupMessage::Open) => self.apply_open(ui),
            UiMessageData::Popup(PopupMessage::Close) => self.apply_close(ui),
            UiMessageData::Popup(PopupMessage::Content(content)) => self.apply_content(ui, content),
            UiMessageData::Popup(PopupMessage::Placement(placement)) => {
                self.placement = placement;
                self.widget.invalidate_layout();
            },
            UiMessageData::Widget(_) => {},
        }
    }

    /// Asks for the popup to open at the next flush, unless it is open
    /// already; the layout is invalidated at once.
    pub fn open(&mut self, ui: &mut UserInterface)
        ensures
            old(self)@.is_open ==> final(self)@ == old(self)@ && final(ui)@ == old(ui)@,
            !old(self)@.is_open ==> final(self)@ == (PopupState {
                widget: Widget { layout_valid: false, ..old(self)@.widget },
                ..old(self)@
            }) && final(ui)@ == (UiState {
                messages: old(ui)@.messages.push(request(old(self)@, PopupMessage::Open)),
                ..old(ui)@
            }),
    {
        if !self.is_open {
            self.widget.invalidate_layout();
            ui.send_message(UiMessage::popup(self.widget.handle, PopupMessage::Open));
        }
    }

    /// Asks for the popup to close at the next flush, unless it is closed
    /// already; the layout is invalidated at once.
    pub fn close(&mut self, ui: &mut UserInterface)
        ensures
            !old(self)@.is_open ==> final(self)@ == old(self)@ && final(ui)@ == old(ui)@,
            old(self)@.is_open ==> final(self)@ == (PopupState {
                widget: Widget { layout_valid: false, ..old(self)@.widget },
                ..old(self)@
            }) && final(ui)@ == (UiState {
                messages: old(ui)@.messages.push(request(old(self)@, PopupMessage::Close)),
                ..old(ui)@
            }),
    {
        if self.is_open {
            self.widget.invalidate_layout();
            ui.send_message(UiMessage::popup(self.widget.handle, PopupMessage::Close));
        }
    }

    /// Changes the placement at once and tells the popup's listeners at the
    /// next flush; nothing happens if the placement is the same.
    pub fn set_placement(&mut self, ui: &mut UserInterface, placement: Placement)
        ensures
            old(self)@.placement == placement ==> final(self)@ == old(self)@ && final(ui)@ == old(ui)@,
            old(self)@.placement != placement ==> final(self)@ == (PopupState {
                placement,
                widget: Widget { layout_valid: false, ..old(self)@.widget },
                ..old(self)@
            }) && final(ui)@ == (UiState {
                messages: old(ui)@.messages.push(request(old(self)@, PopupMessage::Placement(placement))),
                ..old(ui)@
            }),
    {
        if self.placement != placement {
            self.placement = placement;
            self.widget.invalidate_layout();
            ui.send_message(UiMessage::popup(self.widget.handle, PopupMessage::Placement(placement)));
        }
    }

    /// Reacts to a raw input sample: a press outside the popup asks for it to
    /// close, when the popup is open, on top of the stack and not set to stay open.
    pub fn handle_os_event(&mut self, self_handle: Handle, ui: &mut UserInterface, event: &OsEvent)
        ensures
            dismisses(old(self)@, self_handle, old(ui)@, *event) ==> final(self)@ == (PopupState {
                widget: Widget { layout_valid: false, ..old(self)@.widget },
                ..old(self)@
            }) && final(ui)@ == (UiState {
                messages: old(ui)@.messages.push(request(old(self)@, PopupMessage::Close)),
                ..old(ui)@
            }),
            !dismisses(old(self)@, self_handle, old(ui)@, *event) ==> final(self)@ == old(self)@
                && final(ui)@ == old(ui)@,
    {
        if let OsEvent::MouseInput { state, .. } = *event {
            if state == ButtonState::Pressed && ui.top_picking_restriction() == self_handle && self.is_open {
                let pos = ui.cursor_position();
                if !self.widget.screen_bounds().contains(pos.x, pos.y) && !self.stays_open {
                    self.close(ui);
                }
            }
        }
    }

    /// A copy of the popup for a copied node graph; the copy starts closed and
    /// may close on its own.
    pub fn raw_copy(&self) -> (r: Popup)
        ensures
            r@ == (PopupState { stays_open: false, is_open: false, ..self@ }),
    {
        Popup {
            widget: self.widget,
            placement: self.placement,
            stays_open: false,
            is_open: false,
            content: self.content,
            body: self.body,
        }
    }

    /// Rewrites the content and body handles through `node_map` after the
    /// node graph was copied or reloaded. A content that the table lacks is
    /// kept as it was; the body must be in the table.
    pub fn resolve(&mut self, node_map: &NodeHandleMapping)
        requires
            has_key(node_map@, old(self)@.body),
        ensures
            final(self)@ == (PopupState {
                content: match lookup(node_map@, old(self)@.content) {
                    Some(c) => c,
                    None => old(self)@.content,
                },
                body: lookup(node_map@, old(self)@.body)->Some_0,
                ..old(self)@
            }),
    {
        if let Some(content) = node_map.get(&self.content) {
            self.content = content;
        }
        match node_map.get(&self.body) {
            Some(body) => self.body = body,
            None => {},
        }
    }
}

/// The settings of a popup before it is built.
pub struct PopupBuilder {
    widget_builder: WidgetBuilder,
    placement: Placement,
    stays_open: bool,
    content: Handle,
}

/// The state of `ui` once a popup has been built in it from the given
/// settings, before the queued messages are delivered.
pub open spec fn registered(
    ui: UiState,
    widget: Widget,
    placement: Placement,
    stays_open: bool,
    content: Handle,
) -> UiState {
    let body = Handle { index: ui.next_index as u32, generation: 1 };
    let handle = Handle { index: (ui.next_index + 1) as u32, generation: 1 };
    let with_body = ui.graph.push(GraphOp::Add(body));
    let with_content = if content.is_present() {
        with_body.push(GraphOp::Link { child: content, parent: body })
    } else {
        with_body
    };
    UiState {
        graph: with_content.push(GraphOp::Add(handle)).push(GraphOp::Link { child: body, parent: handle }),
        next_index: ui.next_index + 2,
        popups: ui.popups.push(
            PopupState { widget, placement, stays_open, is_open: false, content, body },
        ),
        messages: Seq::empty(),
        ..ui
    }
}

impl PopupBuilder {
    pub closed spec fn spec_widget_builder(&self) -> WidgetBuilder {
        self.widget_builder
    }

    pub closed spec fn spec_placement(&self) -> Placement {
        self.placement
    }

    pub closed spec fn spec_stays_open(&self) -> bool {
        self.stays_open
    }

    pub closed spec fn spec_content(&self) -> Handle {
        self.content
    }

    /// A popup placed at the cursor, that closes on an outside press, with no content.
    pub fn new(widget_builder: WidgetBuilder) -> (r: PopupBuilder)
        ensures
            r.spec_widget_builder() == widget_builder,
            r.spec_placement() == Placement::Cursor,
            !r.spec_stays_open(),
            !r.spec_content().is_present(),
    {
        PopupBuilder { widget_builder, placement: Placement::Cursor, stays_open: false, content: Handle::none() }
    }

    pub fn with_placement(self, placement: Placement) -> (r: PopupBuilder)
        ensures
            r.spec_widget_builder() == self.spec_widget_builder(),
            r.spec_placement() == placement,
            r.spec_stays_open() == self.spec_stays_open(),
            r.spec_content() == self.spec_content(),
    {
        PopupBuilder { placement, ..self }
    }

    pub fn stays_open(self, value: bool) -> (r: PopupBuilder)
        ensures
            r.spec_widget_builder() == self.spec_widget_builder(),
            r.spec_placement() == self.spec_placement(),
            r.spec_stays_open() == value,
            r.spec_content() == self.spec_content(),
    {
        PopupBuilder { stays_open: value, ..self }
    }

    pub fn with_content(self, content: Handle) -> (r: PopupBuilder)
        ensures
            r.spec_widget_builder() == self.spec_widget_builder(),
            r.spec_placement() == self.spec_placement(),
            r.spec_stays_open() == self.spec_stays_open(),
            r.spec_content() == content,
    {
        PopupBuilder { content, ..self }
    }

    /// Makes the body around the content, registers a hidden, closed popup
    /// that owns the body, then delivers the queued messages. Returns the
    /// popup's handle.
    pub fn build(self, ui: &mut UserInterface) -> (r: Handle)
        requires
            old(ui)@.next_index + 2 < u32::MAX,
        ensures
            r == (Handle { index: (old(ui)@.next_index + 1) as u32, generation: 1 }),
            final(ui)@ == deliver_all(
                registered(
                    old(ui)@,
                    Widget { visible: false, ..self.spec_widget_builder().build_spec(r) },
                    self.spec_placement(),
                    self.spec_stays_open(),
                    self.spec_content(),
                ),
                old(ui)@.messages,
            ),
    {
        let body = ui.add_node();
        if self.content.is_some() {
            ui.link_nodes(self.content, body);
        }
        let handle = ui.add_node();
        ui.link_nodes(body, handle);
        let popup = Popup {
            widget: self.widget_builder.with_visibility(false).build(handle),
            placement: self.placement,
            stays_open: self.stays_open,
            is_open: false,
            content: self.content,
            body,
        };
        ui.add_popup(popup);
        ui.flush_messages();
        handle
    }
}

} // verus!
