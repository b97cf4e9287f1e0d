//! Lifecycle engine of an overlay popup in a retained-mode UI: placement
//! resolution, the open/close state machine, the shared picking-restriction
//! stack protocol and the replacement of the popup's content.

mod geometry;
mod handle;
mod lifecycle;
mod message;
mod placement;
mod popup;
mod ui;
mod widget;

pub use handle::{has_key, lookup, Handle, NodeHandleMapping};
pub use geometry::{Point, Rect, Size};
pub use placement::{placement_position, resolve_placement, Placement};
pub use message::{ButtonState, MouseButton, OsEvent, PopupMessage, UiMessage, UiMessageData, WidgetMessage};
pub use ui::{deliver_all, deliver_one, os_event_step, os_event_upto, sampled, first_with, has_popup, is_first_with, popped, top_of, GraphOp, UiState, UserInterface};
pub use widget::{Widget, WidgetBuilder};
pub use popup::{close_step, content_step, dismisses, open_step, placement_step, registered, request, routed_step, Popup, PopupBuilder, PopupState};
pub use lifecycle::{
    close_is_idempotent, content_swap_ops, dismissal_closes, dismissal_needs_open_top_popup, open_close_restores_stack,
    open_is_idempotent, press_inside_keeps_open, stays_open_keeps_stack,
};
