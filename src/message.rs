use vstd::prelude::*;

use crate::geometry::Point;
use crate::handle::Handle;
use crate::placement::Placement;

verus! {

/// Requests addressed to a popup.
#[derive(Clone, Copy, Debug, PartialEq, Eq, Structural)]
pub enum PopupMessage {
    Open,
    Close,
    /// Replaces the popup's content; the absent handle leaves it empty.
    Content(Handle),
    Placement(Placement),
}

/// Requests addressed to any widget.
#[derive(Clone, Copy, Debug, PartialEq, Eq, Structural)]
pub enum WidgetMessage {
    /// Draw the widget above its siblings.
    TopMost,
}

#[derive(Clone, Copy, Debug, PartialEq, Eq, Structural)]
pub enum UiMessageData {
    Popup(PopupMessage),
    Widget(WidgetMessage),
}

/// A message routed to the node `destination`.
#[derive(Clone, Copy, Debug, PartialEq, Eq, Structural)]
pub struct UiMessage {
    pub data: UiMessageData,
    pub destination: Handle,
    pub handled: bool,
}

impl UiMessage {
    pub fn popup(destination: Handle, msg: PopupMessage) -> (r: UiMessage)
        ensures
            r == (UiMessage { data: UiMessageData::Popup(msg), destination, handled: false }),
    {
        UiMessage { data: UiMessageData::Popup(msg), destination, handled: false }
    }

    pub fn widget(destination: Handle, msg: WidgetMessage) -> (r: UiMessage)
        ensures
            r == (UiMessage { data: UiMessageData::Widget(msg), destination, handled: false }),
    {
        UiMessage { data: UiMessageData::Widget(msg), destination, handled: false }
    }
}

#[derive(Clone, Copy, Debug, PartialEq, Eq, Structural)]
pub enum ButtonState {
    Pressed,
    Released,
}

#[derive(Clone, Copy, Debug, PartialEq, Eq, Structural)]
pub enum MouseButton {
    Left,
    Right,
    Middle,
}

/// A raw input sample, delivered outside the message queue.
#[derive(Clone, Copy, Debug, PartialEq, Eq, Structural)]
pub enum OsEvent {
    MouseInput { button: MouseButton, state: ButtonState },
    CursorMoved { position: Point },
}

} // verus!
