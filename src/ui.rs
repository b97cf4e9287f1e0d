use vstd::prelude::*;

use crate::geometry::{Point, Size};
use crate::handle::Handle;
use crate::message::{OsEvent, PopupMessage, UiMessage, UiMessageData, WidgetMessage};
use crate::popup::{dismisses, request, routed_step, Popup, PopupState};
use crate::widget::Widget;

verus! {

/// A change to the structure of the node graph, recorded in the order asked
/// for; the graph's storage applies them.
#[derive(Clone, Copy, Debug, PartialEq, Eq, Structural)]
pub enum GraphOp {
    /// A node was registered under the handle.
    Add(Handle),
    /// The node and its subtree are removed.
    Remove(Handle),
    /// `child` is attached under `parent`.
    Link { child: Handle, parent: Handle },
    /// The node is drawn above its siblings.
    BringToTop(Handle),
}

/// What the UI manager holds, as seen by contracts.
pub struct UiState {
    pub screen_size: Size,
    pub cursor_position: Point,
    /// The picking-restriction stack; its last entry is the top.
    pub picking_stack: Seq<Handle>,
    /// The node that holds the pointer capture, or the absent handle.
    pub captured: Handle,
    /// Messages waiting for the next flush, oldest first.
    pub messages: Seq<UiMessage>,
    pub graph: Seq<GraphOp>,
    /// Index of the next node to be registered.
    pub next_index: nat,
    /// The popups registered with the manager, in order of registration.
    pub popups: Seq<PopupState>,
}

/// The handle on top of `stack`, or the absent handle when it is empty.
pub open spec fn top_of(stack: Seq<Handle>) -> Handle {
    if stack.len() == 0 {
        Handle { index: 0, generation: 0 }
    } else {
        stack.last()
    }
}

/// `stack` with its top entry taken off, if it has one.
/// `i` is the first position in `popups` of a popup with handle `h`.
pub open spec fn is_first_with(popups: Seq<PopupState>, h: Handle, i: int) -> bool {
    &&& 0 <= i < popups.len()
    &&& popups[i].handle() == h
    &&& forall|j: int| 0 <= j < i ==> #[trigger] popups[j].handle() != h
}

/// Whether some registered popup has the handle `h`.
pub open spec fn has_popup(popups: Seq<PopupState>, h: Handle) -> bool {
    exists|i: int| 0 <= i < popups.len() && #[trigger] popups[i].handle() == h
}

/// The first position of a popup with handle `h`, when there is one.
pub open spec fn first_with(popups: Seq<PopupState>, h: Handle) -> int {
    choose|i: int| is_first_with(popups, h, i)
}

/// The state after one message is delivered: a widget message to bring a node
/// to the top goes to the node graph; a popup message goes to the first popup
/// registered under its destination, if any.
pub open spec fn deliver_one(ui: UiState, msg: UiMessage) -> UiState {
    match msg.data {
        UiMessageData::Widget(WidgetMessage::TopMost) => UiState {
            graph: ui.graph.push(GraphOp::BringToTop(msg.destination)),
            ..ui
        },
        UiMessageData::Popup(_) => if has_popup(ui.popups, msg.destination) {
            let i = first_with(ui.popups, msg.destination);
            let (p, next) = routed_step(ui.popups[i], ui, msg);
            UiState { popups: next.popups.update(i, p), ..next }
        } else {
            ui
        },
    }
}

/// The state after the messages `msgs` are delivered in order.
pub open spec fn deliver_all(ui: UiState, msgs: Seq<UiMessage>) -> UiState
    decreases msgs.len(),
{
    if msgs.len() == 0 {
        ui
    } else {
        deliver_one(deliver_all(ui, msgs.drop_last()), msgs.last())
    }
}

/// The state after the `i`-th registered popup has seen `event`: a popup that
/// the press dismisses invalidates its layout and queues a Close for itself.
pub open spec fn os_event_step(ui: UiState, event: OsEvent, i: int) -> UiState {
    let p = ui.popups[i];
    if dismisses(p, p.handle(), ui, event) {
        UiState {
            popups: ui.popups.update(i, PopupState { widget: Widget { layout_valid: false, ..p.widget }, ..p }),
            messages: ui.messages.push(request(p, PopupMessage::Close)),
            ..ui
        }
    } else {
        ui
    }
}

proof fn lemma_os_event_upto_len(ui: UiState, event: OsEvent, k: nat)
    requires
        k <= ui.popups.len(),
    ensures
        os_event_upto(ui, event, k).popups.len() == ui.popups.len(),
    decreases k,
{
    if k > 0 {
        lemma_os_event_upto_len(ui, event, (k - 1) as nat);
    }
}

/// The state after the first `k` registered popups have seen `event`, in order.
pub open spec fn os_event_upto(ui: UiState, event: OsEvent, k: nat) -> UiState
    decreases k,
{
    if k == 0 {
        ui
    } else {
        os_event_step(os_event_upto(ui, event, (k - 1) as nat), event, k - 1)
    }
}

/// The state once a pointer move has been sampled; other events leave it as it was.
pub open spec fn sampled(ui: UiState, event: OsEvent) -> UiState {
    match event {
        OsEvent::CursorMoved { position } => UiState { cursor_position: position, ..ui },
        _ => ui,
    }
}

pub open spec fn popped(stack: Seq<Handle>) -> Seq<Handle> {
    if stack.len() == 0 {
        stack
    } else {
        stack.drop_last()
    }
}

/// The state that the UI manager shares among overlays: screen, pointer,
/// picking-restriction stack, pointer capture, message queue and the requests
/// made of the node graph.
pub struct UserInterface {
    screen_size: Size,
    cursor_position: Point,
    picking_stack: Vec<Handle>,
    captured: Handle,
    messages: Vec<UiMessage>,
    graph: Vec<GraphOp>,
    next_index: u32,
    popups: Vec<Popup>,
}

impl View for UserInterface {
    type V = UiState;

    closed spec fn view(&self) -> UiState {
        UiState {
            screen_size: self.screen_size,
            cursor_position: self.cursor_position,
            picking_stack: self.picking_stack@,
            captured: self.captured,
            messages: self.messages@,
            graph: self.graph@,
            next_index: self.next_index as nat,
            popups: self.popups@.map_values(|p: Popup| p@),
        }
    }
}

impl UserInterface {
    /// A manager for a screen of the given size, with nothing registered.
    /// Index zero is never handed out.
    pub fn new(screen_size: Size) -> (r: UserInterface)
        ensures
            r@ == (UiState {
                screen_size,
                cursor_position: Point { x: 0, y: 0 },
                picking_stack: Seq::empty(),
                captured: Handle { index: 0, generation: 0 },
                messages: Seq::empty(),
                graph: Seq::empty(),
                next_index: 1,
                popups: Seq::empty(),
            }),
    {
        let ui = UserInterface {
            screen_size,
            cursor_position: Point::zero(),
            picking_stack: Vec::new(),
            captured: Handle::none(),
            messages: Vec::new(),
            graph: Vec::new(),
            next_index: 1,
            popups: Vec::new(),
        };
        assert(ui@.popups =~= Seq::empty());
        ui
    }

    pub fn screen_size(&self) -> (r: Size)
        ensures
            r == self@.screen_size,
    {
        self.screen_size
    }

    pub fn cursor_position(&self) -> (r: Point)
        ensures
            r == self@.cursor_position,
    {
        self.cursor_position
    }

    /// Records where the pointer is now.
    pub fn set_cursor_position(&mut self, position: Point)
        ensures
            final(self)@ == (UiState { cursor_position: position, ..old(self)@ }),
    {
        self.cursor_position = position;
    }

    pub fn top_picking_restriction(&self) -> (r: Handle)
        ensures
            r == top_of(self@.picking_stack),
    {
        let n = self.picking_stack.len();
        if n == 0 {
            Handle::none()
        } else {
            self.picking_stack[n - 1]
        }
    }

    pub fn push_picking_restriction(&mut self, handle: Handle)
        ensures
            final(self)@ == (UiState { picking_stack: old(self)@.picking_stack.push(handle), ..old(self)@ }),
    {
        self.picking_stack.push(handle);
    }

    /// Takes the top entry off the stack; an empty stack stays empty.
    pub fn pop_picking_restriction(&mut self)
        ensures
            final(self)@ == (UiState { picking_stack: popped(old(self)@.picking_stack), ..old(self)@ }),
    {
        let _ = self.picking_stack.pop();
    }

    pub fn captured_node(&self) -> (r: Handle)
        ensures
            r == self@.captured,
    {
        self.captured
    }

    /// Directs all pointer input to `handle`.
    pub fn capture_mouse(&mut self, handle: Handle)
        ensures
            final(self)@ == (UiState { captured: handle, ..old(self)@ }),
    {
        self.captured = handle;
    }

    pub fn release_mouse_capture(&mut self)
        ensures
            final(self)@ == (UiState { captured: Handle { index: 0, generation: 0 }, ..old(self)@ }),
    {
        self.captured = Handle::none();
    }

    /// Registers a new node and returns its handle.
    pub fn add_node(&mut self) -> (r: Handle)
        requires
            old(self)@.next_index < u32::MAX,
        ensures
            r == (Handle { index: old(self)@.next_index as u32, generation: 1 }),
            final(self)@ == (UiState {
                graph: old(self)@.graph.push(GraphOp::Add(r)),
                next_index: old(self)@.next_index + 1,
                ..old(self)@
            }),
    {
        let handle = Handle::new(self.next_index, 1);
        self.next_index = self.next_index + 1;
        self.graph.push(GraphOp::Add(handle));
        handle
    }

    /// Removes the node and its subtree.
    pub fn remove_node(&mut self, handle: Handle)
        ensures
            final(self)@ == (UiState { graph: old(self)@.graph.push(GraphOp::Remove(handle)), ..old(self)@ }),
    {
        self.graph.push(GraphOp::Remove(handle));
    }

    /// Attaches `child` under `parent`.
    pub fn link_nodes(&mut self, child: Handle, parent: Handle)
        ensures
            final(self)@ == (UiState {
                graph: old(self)@.graph.push(GraphOp::Link { child, parent }),
                ..old(self)@
            }),
    {
        self.graph.push(GraphOp::Link { child, parent });
    }

    /// Queues `message` for the next flush.
    pub fn send_message(&mut self, message: UiMessage)
        ensures
            final(self)@ == (UiState { messages: old(self)@.messages.push(message), ..old(self)@ }),
    {
        self.messages.push(message);
    }

    /// Takes every queued message, oldest first, and leaves the queue empty.
    pub fn take_messages(&mut self) -> (r: Vec<UiMessage>)
        ensures
            r@ == old(self)@.messages,
            final(self)@ == (UiState { messages: Seq::empty(), ..old(self)@ }),
    {
        let mut taken: Vec<UiMessage> = Vec::new();
        std::mem::swap(&mut taken, &mut self.messages);
        taken
    }

    /// Records that `handle` asks to be drawn above its siblings.
    pub fn bring_to_top(&mut self, handle: Handle)
        ensures
            final(self)@ == (UiState { graph: old(self)@.graph.push(GraphOp::BringToTop(handle)), ..old(self)@ }),
    {
        self.graph.push(GraphOp::BringToTop(handle));
    }

    pub fn pending_messages(&self) -> (r: &Vec<UiMessage>)
        ensures
            r@ == self@.messages,
    {
        &self.messages
    }

    pub fn picking_stack(&self) -> (r: &Vec<Handle>)
        ensures
            r@ == self@.picking_stack,
    {
        &self.picking_stack
    }

    pub fn graph_ops(&self) -> (r: &Vec<GraphOp>)
        ensures
            r@ == self@.graph,
    {
        &self.graph
    }

    /// Registers a popup so that messages addressed to it reach it.
    pub fn add_popup(&mut self, popup: Popup)
        ensures
            final(self)@ == (UiState { popups: old(self)@.popups.push(popup@), ..old(self)@ }),
    {
        self.popups.push(popup);
        proof {
            assert(self@.popups =~= old(self)@.popups.push(popup@));
        }
    }

    /// The position of the first popup registered under `handle`.
    fn find_popup(&self, handle: Handle) -> (r: Option<usize>)
        ensures
            r matches Some(i) ==> is_first_with(self@.popups, handle, i as int),
            r is None ==> !has_popup(self@.popups, handle),
    {
        let n = self.popups.len();
        let mut i: usize = 0;
        while i < n
            invariant
                n == self.popups@.len(),
                i <= n,
                forall|j: int| 0 <= j < i ==> #[trigger] self@.popups[j].handle() != handle,
            decreases n - i,
        {
            if self.popups[i].handle() == handle {
                return Some(i);
            }
            i = i + 1;
        }
        None
    }

    /// A copy of the first popup registered under `handle`.
    pub fn popup(&self, handle: Handle) -> (r: Option<Popup>)
        ensures
            has_popup(self@.popups, handle) ==> (r matches Some(p) && p@ == self@.popups[first_with(
                self@.popups,
                handle,
            )]),
            !has_popup(self@.popups, handle) ==> r is None,
    {
        match self.find_popup(handle) {
            Some(i) => {
                assert(is_first_with(self@.popups, handle, first_with(self@.popups, handle)));
                Some(self.popups[i])
            },
            None => None,
        }
    }

    /// Puts `popup` in place of the first popup registered under its handle;
    /// does nothing if there is none.
    pub fn store_popup(&mut self, popup: Popup)
        ensures
            has_popup(old(self)@.popups, popup@.handle()) ==> final(self)@ == (UiState {
                popups: old(self)@.popups.update(first_with(old(self)@.popups, popup@.handle()), popup@),
                ..old(self)@
            }),
            !has_popup(old(self)@.popups, popup@.handle()) ==> final(self)@ == old(self)@,
    {
        match self.find_popup(popup.handle()) {
            Some(i) => {
                assert(is_first_with(self@.popups, popup@.handle(), first_with(self@.popups, popup@.handle())));
                self.popups.set(i, popup);
                assert(self@.popups =~= old(self)@.popups.update(i as int, popup@));
            },
            None => {},
        }
    }

    /// Delivers one message.
    fn deliver(&mut self, message: &UiMessage)
        ensures
            final(self)@ == deliver_one(old(self)@, *message),
    {
        match message.data {
            UiMessageData::Widget(WidgetMessage::TopMost) => self.bring_to_top(message.destination),
            UiMessageData::Popup(_) => {
                match self.find_popup(message.destination) {
                    Some(i) => {
                        assert(is_first_with(self@.popups, message.destination, first_with(self@.popups, message.destination)));
                        let mut popup = self.popups[i];
                        popup.handle_routed_message(self, message);
                        self.popups.set(i, popup);
                        assert(self@.popups =~= old(self)@.popups.update(i as int, popup@));
                    },
                    None => {},
                }
            },
        }
    }

    /// Delivers every queued message, oldest first. Messages queued while
    /// they are delivered wait for the next flush.
    pub fn flush_messages(&mut self)
        ensures
            final(self)@ == deliver_all(UiState { messages: Seq::empty(), ..old(self)@ }, old(self)@.messages),
    {
        let pending = self.take_messages();
        let ghost start = self@;
        let n = pending.len();
        let mut k: usize = 0;
        assert(pending@.take(0) =~= Seq::<UiMessage>::empty());
        while k < n
            invariant
                n == pending@.len(),
                k <= n,
                self@ == deliver_all(start, pending@.take(k as int)),
            decreases n - k,
        {
            self.deliver(&pending[k]);
            assert(pending@.take(k + 1).drop_last() =~= pending@.take(k as int));
            k = k + 1;
        }
        assert(pending@.take(n as int) =~= pending@);
    }

    /// Takes a raw input sample: a pointer move updates the cursor position,
    /// then every registered popup sees the event, in order of registration.
    pub fn process_os_event(&mut self, event: &OsEvent)
        ensures
            final(self)@ == os_event_upto(sampled(old(self)@, *event), *event, old(self)@.popups.len()),
    {
        if let OsEvent::CursorMoved { position } = *event {
            self.set_cursor_position(position);
        }
        let ghost start = self@;
        let n = self.popups.len();
        let mut i: usize = 0;
        while i < n
            invariant
                n == self.popups@.len(),
                n == start.popups.len(),
                i <= n,
                start == sampled(old(self)@, *event),
                self@ == os_event_upto(start, *event, i as nat),
            decreases n - i,
        {
            proof {
                lemma_os_event_upto_len(start, *event, i as nat);
            }
            let mut popup = self.popups[i];
            let handle = popup.handle();
            popup.handle_os_event(handle, self, event);
            self.popups.set(i, popup);
            assert(self@.popups =~= os_event_upto(start, *event, (i + 1) as nat).popups);
            i = i + 1;
        }
    }
}

} // verus!
