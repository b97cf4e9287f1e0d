//! Facts about the popup's transitions, stated over the step functions that
//! the message handlers are proved to follow.
use vstd::prelude::*;

use crate::handle::Handle;
use crate::message::{OsEvent, PopupMessage};
use crate::popup::{close_step, content_step, dismisses, open_step, request, routed_step, PopupState};
use crate::ui::{top_of, GraphOp, UiState};

verus! {

/// Opening an open popup changes nothing, so a second Open, however it
/// arrives, pushes nothing and queues nothing.
pub proof fn open_is_idempotent(p: PopupState, ui: UiState)
    ensures
        p.is_open ==> open_step(p, ui) == (p, ui),
        open_step(open_step(p, ui).0, open_step(p, ui).1) == open_step(p, ui),
{
}

/// Closing a closed popup changes nothing: no pop and no capture release.
pub proof fn close_is_idempotent(p: PopupState, ui: UiState)
    ensures
        !p.is_open ==> close_step(p, ui) == (p, ui),
        close_step(close_step(p, ui).0, close_step(p, ui).1) == close_step(p, ui),
{
}

/// A closed popup that may close on its own, and is not already on top of the
/// stack, pushes itself exactly once when it opens and pops exactly that entry
/// when it closes, which leaves the stack as it was.
pub proof fn open_close_restores_stack(p: PopupState, ui: UiState)
    requires
        !p.is_open,
        !p.stays_open,
        top_of(ui.picking_stack) != p.handle(),
    ensures
        open_step(p, ui).1.picking_stack == ui.picking_stack.push(p.handle()),
        close_step(open_step(p, ui).0, open_step(p, ui).1).1.picking_stack == ui.picking_stack,
{
    assert(ui.picking_stack.push(p.handle()).drop_last() =~= ui.picking_stack);
}

/// A popup set to stay open never touches the picking-restriction stack.
pub proof fn stays_open_keeps_stack(p: PopupState, ui: UiState)
    requires
        p.stays_open,
    ensures
        open_step(p, ui).1.picking_stack == ui.picking_stack,
        close_step(p, ui).1.picking_stack == ui.picking_stack,
        close_step(open_step(p, ui).0, open_step(p, ui).1).1.picking_stack == ui.picking_stack,
{
}

/// Replacing present content removes the old content once and links the new
/// one under the body once; replacing it with nothing only removes it.
pub proof fn content_swap_ops(p: PopupState, ui: UiState, content: Handle)
    requires
        p.content.is_present(),
    ensures
        content.is_present() ==> content_step(p, ui, content).1.graph == ui.graph.push(
            GraphOp::Remove(p.content),
        ).push(GraphOp::Link { child: content, parent: p.body }),
        !content.is_present() ==> content_step(p, ui, content).1.graph == ui.graph.push(
            GraphOp::Remove(p.content),
        ),
        content_step(p, ui, content).0.content == content,
        content_step(p, ui, content).0.body == p.body,
{
}

/// A press that dismisses the popup asks for a Close, and that Close, once
/// delivered, leaves the popup closed.
pub proof fn dismissal_closes(p: PopupState, ui: UiState, event: OsEvent)
    requires
        dismisses(p, p.handle(), ui, event),
    ensures
        !routed_step(p, ui, request(p, PopupMessage::Close)).0.is_open,
{
}

/// A press never dismisses a popup that stays open, that is not on top of the
/// stack, or that is closed.
pub proof fn dismissal_needs_open_top_popup(p: PopupState, self_handle: Handle, ui: UiState, event: OsEvent)
    requires
        p.stays_open || top_of(ui.picking_stack) != self_handle || !p.is_open,
    ensures
        !dismisses(p, self_handle, ui, event),
{
}

/// A press inside the popup's screen bounds never dismisses it, whether or not
/// it stays open.
pub proof fn press_inside_keeps_open(p: PopupState, self_handle: Handle, ui: UiState, event: OsEvent)
    requires
        p.widget.spec_screen_bounds().spec_contains(ui.cursor_position.x as int, ui.cursor_position.y as int),
    ensures
        !dismisses(p, self_handle, ui, event),
{
}

} // verus!
