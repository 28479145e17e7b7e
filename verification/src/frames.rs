//! The scene graph: frames that own drawable items and child frames.

use crate::display_list::{
    BorderStyle, BorderWidths, DisplayItem, DisplayListBuilder, MixBlendMode, ScrollPolicy,
    TransformStyle,
};
use crate::geometry::{Color, LayoutPrimitiveInfo};
use vstd::prelude::*;

verus! {

/// A rectangle filled with one colour.
#[derive(Clone, Copy, Debug, PartialEq, Eq)]
pub struct RectItem {
    pub layout_info: LayoutPrimitiveInfo,
    pub color: Color,
}

/// The border of a rectangle.
#[derive(Clone, Copy, Debug, PartialEq, Eq)]
pub struct BorderItem {
    pub layout_info: LayoutPrimitiveInfo,
    pub widths: BorderWidths,
    pub style: BorderStyle,
}

/// A unit of visual content that a frame owns.
#[derive(Clone, Copy, Debug, PartialEq, Eq)]
pub enum Item {
    Rect(RectItem),
    Border(BorderItem),
}

impl RectItem {
    /// The command that draws this rectangle.
    pub open spec fn display_item(&self) -> DisplayItem {
        DisplayItem::Rectangle { info: self.layout_info, color: self.color }
    }

    /// Appends this rectangle's command to `builder`.
    pub fn build(&self, builder: &mut DisplayListBuilder)
        ensures
            final(builder)@ == old(builder)@.push(self.display_item()),
    {
        builder.push_rect(&self.layout_info, self.color);
    }
}

impl BorderItem {
    /// The command that draws this border.
    pub open spec fn display_item(&self) -> DisplayItem {
        DisplayItem::Border { info: self.layout_info, widths: self.widths, style: self.style }
    }

    /// Appends this border's command to `builder`.
    pub fn build(&self, builder: &mut DisplayListBuilder)
        ensures
            final(builder)@ == old(builder)@.push(self.display_item()),
    {
        builder.push_border(&self.layout_info, self.widths, self.style);
    }
}

impl Item {
    /// The one command that draws this item.
    pub open spec fn display_item(&self) -> DisplayItem {
        match *self {
            Item::Rect(rect) => rect.display_item(),
            Item::Border(border) => border.display_item(),
        }
    }

    /// Appends this item's command to `builder`.
    pub fn build(&self, builder: &mut DisplayListBuilder)
        ensures
            final(builder)@ == old(builder)@.push(self.display_item()),
    {
        match self {
            Item::Rect(rect) => rect.build(builder),
            Item::Border(border) => border.build(builder),
        }
    }
}

/// The commands of the first `n` of `items`, in order.
pub open spec fn items_paint(items: Seq<Item>, n: nat) -> Seq<DisplayItem>
    decreases n,
{
    if n == 0 || n > items.len() {
        Seq::empty()
    } else {
        items_paint(items, (n - 1) as nat).push(items[n - 1].display_item())
    }
}

/// A node of the scene graph. It owns its items and its children; both lists
/// only grow. A frame made with bounds draws its contents inside a group.
pub struct Frame {
    items: Vec<Item>,
    children: Vec<Frame>,
    group: Option<LayoutPrimitiveInfo>,
}

impl Frame {
    /// The items of this frame, in the order in which they were pushed.
    pub closed spec fn items(&self) -> Seq<Item> {
        self.items@
    }

    /// The children of this frame, in the order in which they were pushed.
    pub closed spec fn children(&self) -> Seq<Frame> {
        self.children@
    }

    /// The bounds of the group that this frame draws into, if it has one.
    pub closed spec fn group(&self) -> Option<LayoutPrimitiveInfo> {
        self.group
    }

    /// The command that opens this frame's group, if it has one: a group
    /// whose contents scroll with the page, are not transformed in depth and
    /// are blended normally.
    pub open spec fn group_open(&self) -> Seq<DisplayItem> {
        match self.group() {
            Some(info) => seq![
                DisplayItem::PushStackingContext {
                    info,
                    scroll_policy: ScrollPolicy::Scrollable,
                    transform_style: TransformStyle::Flat,
                    mix_blend_mode: MixBlendMode::Normal,
                },
            ],
            None => Seq::empty(),
        }
    }

    /// The command that closes this frame's group, if it has one.
    pub open spec fn group_close(&self) -> Seq<DisplayItem> {
        match self.group() {
            Some(_) => seq![DisplayItem::PopStackingContext],
            None => Seq::empty(),
        }
    }

    /// The commands of the first `n` children, each child's whole subtree
    /// before the next child's.
    pub closed spec fn children_paint(&self, n: nat) -> Seq<DisplayItem>
        decreases self, n,
    {
        if n == 0 || n > self.children.len() {
            Seq::empty()
        } else {
            self.children_paint((n - 1) as nat) + self.children[n - 1].paint_order()
        }
    }

    /// The commands that draw this frame and all below it: the group's
    /// opening, the frame's own items, the children from first to last, the
    /// group's closing.
    pub closed spec fn paint_order(&self) -> Seq<DisplayItem>
        decreases self, self.children().len() + 1,
    {
        self.group_open() + items_paint(self.items@, self.items@.len()) + self.children_paint(
            self.children@.len(),
        ) + self.group_close()
    }

    /// Whether building this frame into a list that holds `before` leaves
    /// the list holding `after`.
    pub open spec fn builds(&self, before: Seq<DisplayItem>, after: Seq<DisplayItem>) -> bool {
        after == before + self.paint_order()
    }

    /// Where the commands of child `k` start in this frame's paint order:
    /// behind the group's opening, the frame's own items and the commands of
    /// the children before it.
    pub open spec fn child_offset(&self, k: nat) -> nat {
        self.group_open().len() + self.items().len() + self.children_paint(k).len()
    }

    /// A frame without a group, without items and without children.
    pub fn new() -> (frame: Frame)
        ensures
            frame.items() == Seq::<Item>::empty(),
            frame.children() == Seq::<Frame>::empty(),
            frame.group().is_none(),
    {
        Frame { items: Vec::new(), children: Vec::new(), group: None }
    }

    /// An empty frame whose contents are drawn inside a group with the given
    /// bounds.
    pub fn with_bounds(info: LayoutPrimitiveInfo) -> (frame: Frame)
        ensures
            frame.items() == Seq::<Item>::empty(),
            frame.children() == Seq::<Frame>::empty(),
            frame.group() == Some(info),
    {
        Frame { items: Vec::new(), children: Vec::new(), group: Some(info) }
    }

    /// Appends `item` to this frame's items.
    pub fn push_item(&mut self, item: Item)
        ensures
            final(self).items() == old(self).items().push(item),
            final(self).children() == old(self).children(),
            final(self).group() == old(self).group(),
    {
        self.items.push(item);
    }

    /// Appends a filled rectangle to this frame's items.
    pub fn push_rect(&mut self, layout_info: LayoutPrimitiveInfo, color: Color)
        ensures
            final(self).items() == old(self).items().push(
                Item::Rect(RectItem { layout_info, color }),
            ),
            final(self).children() == old(self).children(),
            final(self).group() == old(self).group(),
    {
        self.items.push(Item::Rect(RectItem { layout_info, color }));
    }

    /// Appends a bordered rectangle to this frame's items.
    pub fn push_border(
        &mut self,
        layout_info: LayoutPrimitiveInfo,
        widths: BorderWidths,
        style: BorderStyle,
    )
        ensures
            final(self).items() == old(self).items().push(
                Item::Border(BorderItem { layout_info, widths, style }),
            ),
            final(self).children() == old(self).children(),
            final(self).group() == old(self).group(),
    {
        self.items.push(Item::Border(BorderItem { layout_info, widths, style }));
    }

    /// Appends `frame`, with all below it, to this frame's children.
    pub fn push_child(&mut self, frame: Frame)
        ensures
            final(self).children() == old(self).children().push(frame),
            final(self).items() == old(self).items(),
            final(self).group() == old(self).group(),
    {
        self.children.push(frame);
    }

    /// Appends to `builder` the commands that draw this frame and all below
    /// it, in paint order.
    pub fn build(&self, builder: &mut DisplayListBuilder)
        ensures
            final(builder)@ == old(builder)@ + self.paint_order(),
            self.builds(old(builder)@, final(builder)@),
        decreases self,
    {
        let ghost before = builder@;
        match &self.group {
            Some(info) => builder.push_stacking_context(
                info,
                ScrollPolicy::Scrollable,
                TransformStyle::Flat,
                MixBlendMode::Normal,
            ),
            None => {},
        }
        assert(builder@ =~= before + self.group_open());
        let mut i: usize = 0;
        while i < self.items.len()
            invariant
                i <= self.items.len(),
                builder@ == before + self.group_open() + items_paint(self.items@, i as nat),
            decreases self.items.len() - i,
        {
            self.items[i].build(builder);
            i += 1;
        }
        let ghost own = before + self.group_open() + items_paint(
            self.items@,
            self.items@.len(),
        );
        let mut j: usize = 0;
        assert(builder@ =~= own + self.children_paint(0));
        while j < self.children.len()
            invariant
                j <= self.children.len(),
                builder@ == own + self.children_paint(j as nat),
            decreases self.children.len() - j,
        {
            self.children[j].build(builder);
            assert(builder@ =~= own + self.children_paint((j + 1) as nat));
            j += 1;
        }
        match &self.group {
            Some(_) => builder.pop_stacking_context(),
            None => {},
        }
        assert(builder@ =~= before + self.paint_order());
    }
}

impl Default for Frame {
    /// A frame without a group, without items and without children.
    fn default() -> (frame: Frame)
        ensures
            frame.items() == Seq::<Item>::empty(),
            frame.children() == Seq::<Frame>::empty(),
            frame.group().is_none(),
    {
        Frame::new()
    }
}

/// The commands of the first `n` items are `n` commands, the command of each
/// item at the item's own position.
pub proof fn lemma_items_paint(items: Seq<Item>, n: nat)
    requires
        n <= items.len(),
    ensures
        items_paint(items, n).len() == n,
        forall|i: int| 0 <= i < n ==> items_paint(items, n)[i] == items[i].display_item(),
    decreases n,
{
    if n > 0 {
        lemma_items_paint(items, (n - 1) as nat);
    }
}

/// A frame's paint order is the group's opening, then the commands of its
/// own items, then the commands of its children, then the group's closing.
pub proof fn lemma_paint_order(frame: Frame)
    ensures
        frame.paint_order() == frame.group_open() + items_paint(
            frame.items(),
            frame.items().len(),
        ) + frame.children_paint(frame.children().len()) + frame.group_close(),
        frame.group().is_none() ==> frame.paint_order() == items_paint(
            frame.items(),
            frame.items().len(),
        ) + frame.children_paint(frame.children().len()),
{
    if frame.group().is_none() {
        let own = items_paint(frame.items(), frame.items().len());
        let below = frame.children_paint(frame.children().len());
        assert(frame.group_open() + own + below + frame.group_close() =~= own + below);
    }
}

/// The commands of no children are none; the commands of the first `n`
/// children are those of the first `n - 1`, then the whole paint order of
/// child `n - 1`.
pub proof fn lemma_children_paint(frame: Frame, n: nat)
    requires
        n <= frame.children().len(),
    ensures
        n == 0 ==> frame.children_paint(n) == Seq::<DisplayItem>::empty(),
        n > 0 ==> frame.children_paint(n) == frame.children_paint((n - 1) as nat)
            + frame.children()[n - 1].paint_order(),
{
}

/// Item `i` of a frame is drawn by the command at position `i` behind the
/// group's opening: the items are drawn in the order in which they were
/// pushed, and before every child.
pub proof fn lemma_item_position(frame: Frame, i: int)
    requires
        0 <= i < frame.items().len(),
    ensures
        frame.group_open().len() + i < frame.child_offset(0),
        frame.child_offset(0) <= frame.paint_order().len(),
        frame.paint_order()[frame.group_open().len() + i] == frame.items()[i].display_item(),
{
    lemma_items_paint(frame.items(), frame.items().len());
    lemma_paint_order(frame);
    lemma_children_paint(frame, 0);
}

/// The commands of child `k`, with all below it, stand together in the
/// frame's paint order: behind the frame's own items and the commands of the
/// children before it, and before those of the children after it.
pub proof fn lemma_child_position(frame: Frame, k: nat)
    requires
        k < frame.children().len(),
    ensures
        frame.group_open().len() + frame.items().len() <= frame.child_offset(k),
        frame.child_offset(k + 1) == frame.child_offset(k) + frame.children()[k as int].paint_order().len(),
        frame.child_offset(k + 1) <= frame.paint_order().len(),
        frame.paint_order().subrange(
            frame.child_offset(k) as int,
            frame.child_offset(k + 1) as int,
        ) == frame.children()[k as int].paint_order(),
{
    let n = frame.children().len();
    lemma_items_paint(frame.items(), frame.items().len());
    lemma_paint_order(frame);
    lemma_children_prefix(frame, k + 1, n);
    lemma_children_paint(frame, k + 1);
    let head = frame.group_open() + items_paint(frame.items(), frame.items().len());
    let first = frame.children_paint(k);
    let child = frame.children()[k as int].paint_order();
    let rest = frame.children_paint(n).subrange(
        frame.children_paint(k + 1).len() as int,
        frame.children_paint(n).len() as int,
    );
    assert(frame.children_paint(n) =~= first + child + rest);
    assert(frame.paint_order() =~= head + first + child + rest + frame.group_close());
    assert(frame.paint_order().subrange(
        frame.child_offset(k) as int,
        frame.child_offset(k + 1) as int,
    ) =~= child);
}

/// The commands of the first `k` children open the commands of the first
/// `n`.
pub proof fn lemma_children_prefix(frame: Frame, k: nat, n: nat)
    requires
        k <= n <= frame.children().len(),
    ensures
        frame.children_paint(k).len() <= frame.children_paint(n).len(),
        frame.children_paint(n).subrange(0, frame.children_paint(k).len() as int)
            == frame.children_paint(k),
    decreases n - k,
{
    if k < n {
        lemma_children_prefix(frame, k, (n - 1) as nat);
        lemma_children_paint(frame, n);
        assert(frame.children_paint(n).subrange(0, frame.children_paint(k).len() as int)
            =~= frame.children_paint(k));
    } else {
        assert(frame.children_paint(n).subrange(0, frame.children_paint(k).len() as int)
            =~= frame.children_paint(k));
    }
}

/// Building one frame into two empty lists leaves the two lists equal.
pub proof fn lemma_build_repeatable(
    frame: Frame,
    first: Seq<DisplayItem>,
    second: Seq<DisplayItem>,
)
    requires
        frame.builds(Seq::empty(), first),
        frame.builds(Seq::empty(), second),
    ensures
        first == second,
        first == frame.paint_order(),
{
    assert(Seq::<DisplayItem>::empty() + frame.paint_order() =~= frame.paint_order());
}

} // verus!
