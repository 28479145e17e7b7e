//! The command list: the ordered sink that a scene is flattened into.

use crate::geometry::{Color, LayoutPoint, LayoutPrimitiveInfo};
use vstd::prelude::*;

verus! {

/// The handle of a font that the renderer's resource table holds.
#[derive(Clone, Copy, Debug, PartialEq, Eq, Structural)]
pub struct FontKey {
    pub namespace: u32,
    pub id: u32,
}

/// The handle of a font at one size, as the renderer's resource table holds it.
#[derive(Clone, Copy, Debug, PartialEq, Eq, Structural)]
pub struct FontInstanceKey {
    pub namespace: u32,
    pub id: u32,
}

/// The widths of a border's four sides.
#[derive(Clone, Copy, Debug, PartialEq, Eq, Structural)]
pub struct BorderWidths {
    pub left: i32,
    pub top: i32,
    pub right: i32,
    pub bottom: i32,
}

/// How a border's line is drawn.
#[derive(Clone, Copy, Debug, PartialEq, Eq, Structural)]
pub enum BorderLine {
    Absent,
    Solid,
    Double,
    Dotted,
    Dashed,
    Hidden,
    Groove,
    Ridge,
    Inset,
    Outset,
}

/// The look of a border: its line and its colour, the same on all four
/// sides.
#[derive(Clone, Copy, Debug, PartialEq, Eq, Structural)]
pub struct BorderStyle {
    pub line: BorderLine,
    pub color: Color,
}

/// Whether a group's contents move when the page is scrolled.
#[derive(Clone, Copy, Debug, PartialEq, Eq, Structural)]
pub enum ScrollPolicy {
    Scrollable,
    Fixed,
}

/// Whether a group's contents are flattened into the group's plane.
#[derive(Clone, Copy, Debug, PartialEq, Eq, Structural)]
pub enum TransformStyle {
    Flat,
    Preserve3D,
}

/// How a group's contents are blended with what lies below them.
#[derive(Clone, Copy, Debug, PartialEq, Eq, Structural)]
pub enum MixBlendMode {
    Normal,
    Multiply,
    Screen,
    Overlay,
    Darken,
    Lighten,
}

/// One drawing command.
#[derive(Debug, PartialEq, Eq)]
pub enum DisplayItem {
    /// Opens a group with the given bounds.
    PushStackingContext {
        info: LayoutPrimitiveInfo,
        scroll_policy: ScrollPolicy,
        transform_style: TransformStyle,
        mix_blend_mode: MixBlendMode,
    },
    /// Closes the group that was opened last.
    PopStackingContext,
    /// Fills a rectangle.
    Rectangle { info: LayoutPrimitiveInfo, color: Color },
    /// Draws the border of a rectangle.
    Border { info: LayoutPrimitiveInfo, widths: BorderWidths, style: BorderStyle },
    /// Draws one run of text: the glyphs of `text` in the font `font`, at
    /// `font_size` units, with the pen starting at `origin`.
    Text {
        info: LayoutPrimitiveInfo,
        text: String,
        origin: LayoutPoint,
        font_size: i32,
        font: FontInstanceKey,
        color: Color,
    },
}

/// An append-only list of drawing commands, in paint order.
pub struct DisplayListBuilder {
    items: Vec<DisplayItem>,
}

impl View for DisplayListBuilder {
    type V = Seq<DisplayItem>;

    closed spec fn view(&self) -> Seq<DisplayItem> {
        self.items@
    }
}

impl DisplayListBuilder {
    /// An empty list.
    pub fn new() -> (builder: DisplayListBuilder)
        ensures
            builder@ == Seq::<DisplayItem>::empty(),
    {
        DisplayListBuilder { items: Vec::new() }
    }

    /// Appends one command.
    pub fn push_item(&mut self, item: DisplayItem)
        ensures
            final(self)@ == old(self)@.push(item),
    {
        self.items.push(item);
    }

    /// Appends a filled rectangle.
    pub fn push_rect(&mut self, info: &LayoutPrimitiveInfo, color: Color)
        ensures
            final(self)@ == old(self)@.push(DisplayItem::Rectangle { info: *info, color }),
    {
        self.items.push(DisplayItem::Rectangle { info: *info, color });
    }

    /// Appends a bordered rectangle.
    pub fn push_border(&mut self, info: &LayoutPrimitiveInfo, widths: BorderWidths, style: BorderStyle)
        ensures
            final(self)@ == old(self)@.push(DisplayItem::Border { info: *info, widths, style }),
    {
        self.items.push(DisplayItem::Border { info: *info, widths, style });
    }

    /// Appends a run of text.
    pub fn push_text(
        &mut self,
        info: &LayoutPrimitiveInfo,
        text: String,
        origin: LayoutPoint,
        font_size: i32,
        font: FontInstanceKey,
        color: Color,
    )
        ensures
            final(self)@ == old(self)@.push(
                DisplayItem::Text { info: *info, text, origin, font_size, font, color },
            ),
    {
        self.items.push(DisplayItem::Text { info: *info, text, origin, font_size, font, color });
    }

    /// Opens a group with the given bounds.
    pub fn push_stacking_context(
        &mut self,
        info: &LayoutPrimitiveInfo,
        scroll_policy: ScrollPolicy,
        transform_style: TransformStyle,
        mix_blend_mode: MixBlendMode,
    )
        ensures
            final(self)@ == old(self)@.push(
                DisplayItem::PushStackingContext {
                    info: *info,
                    scroll_policy,
                    transform_style,
                    mix_blend_mode,
                },
            ),
    {
        self.items.push(
            DisplayItem::PushStackingContext {
                info: *info,
                scroll_policy,
                transform_style,
                mix_blend_mode,
            },
        );
    }

    /// Closes the group that was opened last.
    pub fn pop_stacking_context(&mut self)
        ensures
            final(self)@ == old(self)@.push(DisplayItem::PopStackingContext),
    {
        self.items.push(DisplayItem::PopStackingContext);
    }

    /// The number of commands in the list.
    pub fn len(&self) -> (n: usize)
        ensures
            n == self@.len(),
    {
        self.items.len()
    }

    /// The commands, in paint order.
    pub fn items(&self) -> (items: &Vec<DisplayItem>)
        ensures
            items@ == self@,
    {
        &self.items
    }

    /// Ends the building and hands out the commands, in paint order.
    pub fn finalize(self) -> (items: Vec<DisplayItem>)
        ensures
            items@ == self@,
    {
        self.items
    }
}

} // verus!
