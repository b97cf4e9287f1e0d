use vstd::prelude::*;

use crate::geometry::{Point, Rect, Size};
use crate::handle::Handle;

verus! {

/// The generic part of a widget: what the layout pass and the renderer read.
#[derive(Clone, Copy, Debug, PartialEq, Eq, Structural)]
pub struct Widget {
    pub handle: Handle,
    pub visible: bool,
    /// Where the widget asks to be put, relative to its parent.
    pub desired_local_position: Point,
    /// The size that the last measure pass gave the widget.
    pub actual_size: Size,
    /// Where the last arrange pass put the widget's top-left corner on screen.
    pub screen_position: Point,
    /// False until the next layout pass once something that affects layout changed.
    pub layout_valid: bool,
}

impl Widget {
    pub open spec fn spec_screen_bounds(self) -> Rect {
        Rect { origin: self.screen_position, size: self.actual_size }
    }

    pub fn set_visibility(&mut self, visible: bool)
        ensures
            *final(self) == (Widget { visible, ..*old(self) }),
    {
        self.visible = visible;
    }

    pub fn set_desired_local_position(&mut self, position: Point)
        ensures
            *final(self) == (Widget { desired_local_position: position, ..*old(self) }),
    {
        self.desired_local_position = position;
    }

    pub fn invalidate_layout(&mut self)
        ensures
            *final(self) == (Widget { layout_valid: false, ..*old(self) }),
    {
        self.layout_valid = false;
    }

    /// The screen-space rectangle that the widget covers.
    pub fn screen_bounds(&self) -> (r: Rect)
        ensures
            r == self.spec_screen_bounds(),
    {
        Rect::new(self.screen_position, self.actual_size)
    }
}

/// Collects the settings of a widget before it gets its handle.
pub struct WidgetBuilder {
    visible: bool,
    size: Size,
    desired_position: Point,
}

impl WidgetBuilder {
    pub closed spec fn spec_visible(&self) -> bool {
        self.visible
    }

    pub closed spec fn spec_size(&self) -> Size {
        self.size
    }

    pub closed spec fn spec_desired_position(&self) -> Point {
        self.desired_position
    }

    /// The widget that `build` makes under `handle`.
    pub open spec fn build_spec(self, handle: Handle) -> Widget {
        Widget {
            handle,
            visible: self.spec_visible(),
            desired_local_position: self.spec_desired_position(),
            actual_size: self.spec_size(),
            screen_position: self.spec_desired_position(),
            layout_valid: false,
        }
    }

    /// A visible widget of size zero at the origin.
    pub fn new() -> (r: WidgetBuilder)
        ensures
            r.spec_visible(),
            r.spec_size() == (Size { width: 0, height: 0 }),
            r.spec_desired_position() == (Point { x: 0, y: 0 }),
    {
        WidgetBuilder { visible: true, size: Size::new(0, 0), desired_position: Point::zero() }
    }

    pub fn with_visibility(self, visible: bool) -> (r: WidgetBuilder)
        ensures
            r.spec_visible() == visible,
            r.spec_size() == self.spec_size(),
            r.spec_desired_position() == self.spec_desired_position(),
    {
        WidgetBuilder { visible, ..self }
    }

    /// The size that measuring the widget gives.
    pub fn with_size(self, size: Size) -> (r: WidgetBuilder)
        ensures
            r.spec_visible() == self.spec_visible(),
            r.spec_size() == size,
            r.spec_desired_position() == self.spec_desired_position(),
    {
        WidgetBuilder { size, ..self }
    }

    pub fn with_desired_position(self, position: Point) -> (r: WidgetBuilder)
        ensures
            r.spec_visible() == self.spec_visible(),
            r.spec_size() == self.spec_size(),
            r.spec_desired_position() == position,
    {
        WidgetBuilder { desired_position: position, ..self }
    }

    /// The widget registered under `handle`; its layout is yet to be computed.
    pub fn build(self, handle: Handle) -> (r: Widget)
        ensures
            r == self.build_spec(handle),
    {
        Widget {
            handle,
            visible: self.visible,
            desired_local_position: self.desired_position,
            actual_size: self.size,
            screen_position: self.desired_position,
            layout_valid: false,
        }
    }
}

} // verus!
