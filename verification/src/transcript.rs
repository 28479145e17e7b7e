//! The transcript: rows of prompt, input and output, drawn as text.

use crate::display_list::{DisplayItem, DisplayListBuilder, FontInstanceKey, FontKey};
use crate::geometry::{Color, LayoutPoint, LayoutPrimitiveInfo, LayoutRect, LayoutSize};
use vstd::prelude::*;

verus! {

/// The size of the transcript's text, in layout units.
pub const FONT_SIZE: i32 = 14;

/// The elapsed time, in seconds, that a completed entry records.
pub const COMPLETED_ELAPSED: u32 = 3;

/// The distance from the top of one row to the top of the next.
pub const ROW_PITCH: i32 = 60;

/// The distance of the rows from the left and the top of the transcript.
pub const ROW_INSET: i32 = 10;

/// The width of a row.
pub const ROW_WIDTH: i32 = 100;

/// The height of a row.
pub const ROW_HEIGHT: i32 = 20;

/// The width of the prompt field, and of the output field.
pub const FIELD_WIDTH: i32 = 50;

/// The distance of the input and output fields from the left of the row.
pub const FIELD_OFFSET: i32 = 60;

/// The height of the input field, and the distance of the output field from
/// the top of the row.
pub const INPUT_HEIGHT: i32 = 30;

/// The distance of the pen's starting point below the top of a field.
pub const BASELINE: i32 = 20;

/// The largest length in app units, and the negation of the smallest.
pub const AU_LIMIT: i32 = 1073741823;

/// The colour behind the rows.
pub open spec fn spec_background() -> Color {
    Color { r: 0, g: 1000, b: 0, a: 300 }
}

#[verifier::when_used_as_spec(spec_background)]
pub fn background() -> (c: Color)
    ensures
        c == spec_background(),
{
    Color { r: 0, g: 1000, b: 0, a: 300 }
}

/// Whether `v` is a coordinate that the geometry types can hold.
pub open spec fn in_range(v: int) -> bool {
    i32::MIN <= v <= i32::MAX
}

/// Whether row `idx` of a transcript with the bounds `bounds` lies in the
/// coordinate range.
pub open spec fn row_fits(bounds: LayoutRect, idx: int) -> bool {
    &&& in_range(bounds.origin.x + ROW_INSET)
    &&& in_range(bounds.origin.y + ROW_INSET + ROW_PITCH * idx)
}

/// The rectangle of row `idx` of a transcript with the bounds `bounds`.
pub open spec fn row_rect_at(bounds: LayoutRect, idx: int) -> LayoutRect {
    LayoutRect {
        origin: LayoutPoint {
            x: (bounds.origin.x + ROW_INSET) as i32,
            y: (bounds.origin.y + ROW_INSET + ROW_PITCH * idx) as i32,
        },
        size: LayoutSize { width: ROW_WIDTH, height: ROW_HEIGHT },
    }
}

/// Whether the pen's starting point in `field` lies in the coordinate range.
pub open spec fn anchor_fits(field: LayoutRect) -> bool {
    in_range(field.origin.y + BASELINE)
}

/// Where the pen starts for text drawn in `field`.
pub open spec fn text_anchor(field: LayoutRect) -> LayoutPoint {
    LayoutPoint { x: field.origin.x, y: (field.origin.y + BASELINE) as i32 }
}

/// Whether the three fields of the row `row`, and the pen's starting point in
/// each, lie in the coordinate range.
pub open spec fn fields_fit(row: LayoutRect) -> bool {
    &&& in_range(row.origin.x + FIELD_OFFSET)
    &&& in_range(row.origin.y + BASELINE)
    &&& in_range(row.origin.y + INPUT_HEIGHT + BASELINE)
    &&& in_range(row.size.width - FIELD_OFFSET)
    &&& in_range(row.size.height - INPUT_HEIGHT)
}

/// The prompt field of a row: at the row's corner, as high as the row.
pub open spec fn prompt_rect(row: LayoutRect) -> LayoutRect {
    LayoutRect {
        origin: LayoutPoint { x: row.origin.x, y: row.origin.y },
        size: LayoutSize { width: FIELD_WIDTH, height: row.size.height },
    }
}

/// The input field of a row: to the right of the prompt, in what is left of
/// the row's width.
pub open spec fn input_rect(row: LayoutRect) -> LayoutRect {
    LayoutRect {
        origin: LayoutPoint { x: (row.origin.x + FIELD_OFFSET) as i32, y: row.origin.y },
        size: LayoutSize { width: (row.size.width - FIELD_OFFSET) as i32, height: INPUT_HEIGHT },
    }
}

/// The output field of a row: below the input field.
pub open spec fn output_rect(row: LayoutRect) -> LayoutRect {
    LayoutRect {
        origin: LayoutPoint {
            x: (row.origin.x + FIELD_OFFSET) as i32,
            y: (row.origin.y + INPUT_HEIGHT) as i32,
        },
        size: LayoutSize { width: FIELD_WIDTH, height: (row.size.height - INPUT_HEIGHT) as i32 },
    }
}

/// The command that draws `text` in the field `info`.
pub open spec fn text_item(
    font: FontInstanceKey,
    text: String,
    info: LayoutPrimitiveInfo,
    color: Color,
) -> DisplayItem {
    DisplayItem::Text {
        info,
        text,
        origin: text_anchor(info.rect),
        font_size: FONT_SIZE,
        font,
        color,
    }
}

/// The three commands that draw an entry in the row `row`: prompt, input,
/// output, each in black.
pub open spec fn entry_items(font: FontInstanceKey, entry: EntryView, row: LayoutRect) -> Seq<
    DisplayItem,
> {
    seq![
        text_item(font, entry.prompt, LayoutPrimitiveInfo::new(prompt_rect(row)), Color::black()),
        text_item(font, entry.input, LayoutPrimitiveInfo::new(input_rect(row)), Color::black()),
        text_item(font, entry.output, LayoutPrimitiveInfo::new(output_rect(row)), Color::black()),
    ]
}

/// What an entry holds.
pub ghost struct EntryView {
    pub prompt: String,
    pub input: String,
    pub output: String,
    pub elapsed: nat,
    pub complete: bool,
}

impl EntryView {
    /// The entry after its completion.
    pub open spec fn completed(self) -> EntryView {
        EntryView { elapsed: COMPLETED_ELAPSED as nat, complete: true, ..self }
    }
}

/// One row of the transcript: what was asked, what was typed, what came back.
/// An entry is pending until it is completed.
#[derive(Debug)]
pub struct Entry {
    prompt: String,
    input: String,
    output: String,
    elapsed: u32,
    complete: bool,
}

impl View for Entry {
    type V = EntryView;

    closed spec fn view(&self) -> EntryView {
        EntryView {
            prompt: self.prompt,
            input: self.input,
            output: self.output,
            elapsed: self.elapsed as nat,
            complete: self.complete,
        }
    }
}

impl Entry {
    /// A pending entry has no elapsed time.
    #[verifier::type_invariant]
    spec fn pending_has_no_elapsed_time(&self) -> bool {
        !self.complete ==> self.elapsed == 0
    }

    /// A pending entry.
    pub fn new(prompt: String, input: String, output: String) -> (entry: Entry)
        ensures
            entry@ == (EntryView { prompt, input, output, elapsed: 0, complete: false }),
    {
        Entry { prompt, input, output, elapsed: 0, complete: false }
    }

    /// Marks the entry as completed and records the elapsed time.
    pub fn complete(&mut self)
        ensures
            final(self)@ == old(self)@.completed(),
    {
        self.complete = true;
        self.elapsed = COMPLETED_ELAPSED;
    }

    pub fn prompt(&self) -> (s: &String)
        ensures
            *s == self@.prompt,
    {
        &self.prompt
    }

    pub fn input(&self) -> (s: &String)
        ensures
            *s == self@.input,
    {
        &self.input
    }

    pub fn output(&self) -> (s: &String)
        ensures
            *s == self@.output,
    {
        &self.output
    }

    /// The elapsed time in seconds; it means something only once the entry
    /// is complete.
    pub fn elapsed(&self) -> (seconds: u32)
        ensures
            seconds == self@.elapsed,
            !self@.complete ==> seconds == 0,
    {
        proof {
            use_type_invariant(self);
        }
        self.elapsed
    }

    pub fn is_complete(&self) -> (complete: bool)
        ensures
            complete == self@.complete,
    {
        self.complete
    }
}

impl Default for Entry {
    /// A pending entry with three empty strings.
    fn default() -> (entry: Entry)
        ensures
            entry@.prompt@ == Seq::<char>::empty(),
            entry@.input@ == Seq::<char>::empty(),
            entry@.output@ == Seq::<char>::empty(),
            entry@.elapsed == 0,
            !entry@.complete,
    {
        Entry {
            prompt: String::new(),
            input: String::new(),
            output: String::new(),
            elapsed: 0,
            complete: false,
        }
    }
}

/// Completing an entry twice leaves it as completing it once did.
pub proof fn lemma_complete_idempotent(entry: EntryView)
    ensures
        entry.completed().complete,
        entry.completed().elapsed == COMPLETED_ELAPSED,
        entry.completed().completed() == entry.completed(),
{
}

/// What each of `entries` holds, in the same order.
pub open spec fn entry_views(entries: Seq<Entry>) -> Seq<EntryView> {
    Seq::new(entries.len(), |i: int| entries[i]@)
}

/// What a transcript holds.
pub ghost struct TranscriptView {
    pub font_key: FontKey,
    pub font_instance_key: FontInstanceKey,
    pub layout_info: LayoutPrimitiveInfo,
    pub entries: Seq<EntryView>,
}

impl TranscriptView {
    /// Whether every row, with its fields, lies in the coordinate range.
    pub open spec fn renderable(self) -> bool {
        forall|idx: int|
            0 <= idx < self.entries.len() ==> {
                &&& #[trigger] row_fits(self.layout_info.rect, idx)
                &&& fields_fit(row_rect_at(self.layout_info.rect, idx))
            }
    }

    /// The commands that draw the first `n` rows, from the top down.
    pub open spec fn rows_paint(self, n: nat) -> Seq<DisplayItem>
        decreases n,
    {
        if n == 0 || n > self.entries.len() {
            Seq::empty()
        } else {
            self.rows_paint((n - 1) as nat) + entry_items(
                self.font_instance_key,
                self.entries[n - 1],
                row_rect_at(self.layout_info.rect, n - 1),
            )
        }
    }

    /// Whether rendering the transcript into a list that holds `before`
    /// leaves the list holding `after`.
    pub open spec fn renders(self, before: Seq<DisplayItem>, after: Seq<DisplayItem>) -> bool {
        after == before + self.display_items()
    }

    /// The commands that draw the transcript: the background over the whole
    /// of the bounds, then the rows.
    pub open spec fn display_items(self) -> Seq<DisplayItem> {
        seq![DisplayItem::Rectangle { info: self.layout_info, color: spec_background() }]
            + self.rows_paint(self.entries.len())
    }
}

/// What the renderer needs to know of a font at one size.
#[derive(Clone, Copy, Debug, PartialEq, Eq, Structural)]
pub struct FontInstanceRequest {
    pub font_instance_key: FontInstanceKey,
    pub font_key: FontKey,
    /// The size in app units.
    pub size: i32,
}

/// The number of app units nearest to `v` that a length can hold.
pub open spec fn clamp_au(v: int) -> int {
    if v < -AU_LIMIT {
        -AU_LIMIT as int
    } else if v > AU_LIMIT {
        AU_LIMIT as int
    } else {
        v
    }
}

/// Calls `app_units::Au::from_px` and hands out the number that the `Au`
/// holds. The contract states what that function computes: sixty app units
/// to the pixel, held to the range between the smallest and the largest
/// length in app units.
#[verifier::external_body]
fn au_from_px(px: i32) -> (au: i32)
    ensures
        au == clamp_au(px * 60),
{
    app_units::Au::from_px(px).0
}

/// Whether the pen's starting point in `field` lies in the coordinate range,
/// so that text can be drawn there.
pub fn anchor_in_range(field: LayoutRect) -> (ok: bool)
    ensures
        ok == anchor_fits(field),
{
    field.origin.y <= i32::MAX - BASELINE
}

/// Whether the fields of the row `row` lie in the coordinate range, so that
/// an entry can be drawn there.
pub fn fields_in_range(row: LayoutRect) -> (ok: bool)
    ensures
        ok == fields_fit(row),
{
    row.origin.x <= i32::MAX - FIELD_OFFSET && row.origin.y <= i32::MAX - INPUT_HEIGHT - BASELINE
        && row.size.width >= i32::MIN + FIELD_OFFSET && row.size.height >= i32::MIN
        + INPUT_HEIGHT
}

/// A text widget: a background, and one row for each entry.
pub struct Transcript {
    font_key: FontKey,
    font_instance_key: FontInstanceKey,
    layout_info: LayoutPrimitiveInfo,
    entries: Vec<Entry>,
}

impl View for Transcript {
    type V = TranscriptView;

    closed spec fn view(&self) -> TranscriptView {
        TranscriptView {
            font_key: self.font_key,
            font_instance_key: self.font_instance_key,
            layout_info: self.layout_info,
            entries: entry_views(self.entries@),
        }
    }
}

impl Transcript {
    /// A transcript without entries, for a font that the host has registered
    /// under the two keys.
    pub fn new(
        font_key: FontKey,
        font_instance_key: FontInstanceKey,
        layout_info: LayoutPrimitiveInfo,
    ) -> (transcript: Transcript)
        ensures
            transcript@ == (TranscriptView {
                font_key,
                font_instance_key,
                layout_info,
                entries: Seq::empty(),
            }),
    {
        let transcript = Transcript { font_key, font_instance_key, layout_info, entries: Vec::new() };
        assert(transcript@.entries =~= Seq::empty());
        transcript
    }

    /// A transcript that starts with the given entries.
    pub fn new_with_entries(
        font_key: FontKey,
        font_instance_key: FontInstanceKey,
        layout_info: LayoutPrimitiveInfo,
        entries: Vec<Entry>,
    ) -> (transcript: Transcript)
        ensures
            transcript@ == (TranscriptView {
                font_key,
                font_instance_key,
                layout_info,
                entries: entry_views(entries@),
            }),
    {
        Transcript { font_key, font_instance_key, layout_info, entries }
    }

    /// What the host registers with the renderer for this transcript's text:
    /// the font under `font_key`, at the transcript's font size, under
    /// `font_instance_key`.
    pub fn font_instance_request(&self) -> (request: FontInstanceRequest)
        ensures
            request.font_instance_key == self@.font_instance_key,
            request.font_key == self@.font_key,
            request.size == FONT_SIZE * 60,
    {
        FontInstanceRequest {
            font_instance_key: self.font_instance_key,
            font_key: self.font_key,
            size: au_from_px(FONT_SIZE),
        }
    }

    pub fn font_key(&self) -> (key: FontKey)
        ensures
            key == self@.font_key,
    {
        self.font_key
    }

    pub fn font_instance_key(&self) -> (key: FontInstanceKey)
        ensures
            key == self@.font_instance_key,
    {
        self.font_instance_key
    }

    pub fn layout_info(&self) -> (info: LayoutPrimitiveInfo)
        ensures
            info == self@.layout_info,
    {
        self.layout_info
    }

    /// The entries, from the top row down.
    pub fn entries(&self) -> (entries: &Vec<Entry>)
        ensures
            entry_views(entries@) == self@.entries,
    {
        &self.entries
    }

    /// Appends `entry` as the last row and returns the number of entries.
    pub fn append_entry(&mut self, entry: Entry) -> (count: usize)
        ensures
            final(self)@ == (TranscriptView {
                entries: old(self)@.entries.push(entry@),
                ..old(self)@
            }),
            count == old(self)@.entries.len() + 1,
    {
        self.entries.push(entry);
        assert(entry_views(self.entries@) =~= entry_views(old(self).entries@).push(entry@));
        self.entries.len()
    }

    /// Completes the entry in row `entry_idx`. Where there is no such row,
    /// nothing changes.
    pub fn complete_entry(&mut self, entry_idx: usize)
        ensures
            entry_idx < old(self)@.entries.len() ==> final(self)@ == (TranscriptView {
                entries: old(self)@.entries.update(
                    entry_idx as int,
                    old(self)@.entries[entry_idx as int].completed(),
                ),
                ..old(self)@
            }),
            entry_idx >= old(self)@.entries.len() ==> final(self)@ == old(self)@,
    {
        if entry_idx < self.entries.len() {
            self.entries[entry_idx].complete();
            assert(entry_views(self.entries@) =~= entry_views(old(self).entries@).update(
                entry_idx as int,
                old(self).entries@[entry_idx as int]@.completed(),
            ));
        }
    }

    /// Whether `render` can draw this transcript: whether all its rows lie
    /// in the coordinate range.
    pub fn can_render(&self) -> (ok: bool)
        ensures
            ok == self@.renderable(),
    {
        let n = self.entries.len();
        if n == 0 {
            return true;
        }
        let x: i64 = self.layout_info.rect.origin.x as i64;
        let y: i64 = self.layout_info.rect.origin.y as i64;
        // With so many rows the last one lies beyond the coordinate range
        // wherever the transcript stands.
        if n > 80000000 {
            proof {
                let last = (n - 1) as int;
                assert(!(row_fits(self.layout_info.rect, last) && fields_fit(
                    row_rect_at(self.layout_info.rect, last),
                )));
            }
            return false;
        }
        let rows: i64 = n as i64;
        // The input field of every row starts at `x + ROW_INSET + FIELD_OFFSET`;
        // the pen of the last row's output field starts at `y + ROW_PITCH * rows`.
        assert(ROW_PITCH * rows == 60 * rows) by (nonlinear_arith)
            requires
                ROW_PITCH == 60,
        ;
        let limit: i64 = i32::MAX as i64;
        let ok = x + (ROW_INSET as i64) + (FIELD_OFFSET as i64) <= limit && y + (ROW_PITCH as i64)
            * rows <= limit;
        proof {
            let bounds = self@.layout_info.rect;
            let last = (n - 1) as int;
            assert(self@.entries.len() == n);
            if ok {
                assert forall|idx: int| 0 <= idx < self@.entries.len() implies {
                    &&& #[trigger] row_fits(bounds, idx)
                    &&& fields_fit(row_rect_at(bounds, idx))
                } by {
                    assert(row_fits(bounds, idx));
                    assert(fields_fit(row_rect_at(bounds, idx)));
                }
                assert(self@.renderable());
            } else {
                assert(!(row_fits(bounds, last) && fields_fit(row_rect_at(bounds, last))));
                assert(!self@.renderable());
            }
        }
        ok
    }

    /// Whether row `idx` lies in the coordinate range, so that `row_rect`
    /// can give its rectangle.
    pub fn row_in_range(&self, idx: usize) -> (ok: bool)
        ensures
            ok == row_fits(self@.layout_info.rect, idx as int),
    {
        // So far down a row lies beyond the coordinate range wherever the
        // transcript stands.
        if idx > 80000000 {
            return false;
        }
        let x: i64 = self.layout_info.rect.origin.x as i64;
        let y: i64 = self.layout_info.rect.origin.y as i64;
        assert(ROW_PITCH * idx == 60 * idx) by (nonlinear_arith)
            requires
                ROW_PITCH == 60,
        ;
        let drop: i64 = (ROW_PITCH as i64) * (idx as i64);
        let limit: i64 = i32::MAX as i64;
        x + (ROW_INSET as i64) <= limit && y + (ROW_INSET as i64) + drop <= limit
    }

    /// The rectangle of row `idx`.
    pub fn row_rect(&self, idx: usize) -> (row: LayoutRect)
        requires
            row_fits(self@.layout_info.rect, idx as int),
        ensures
            row == row_rect_at(self@.layout_info.rect, idx as int),
    {
        let x: i32 = self.layout_info.rect.origin.x + ROW_INSET;
        assert(ROW_PITCH * idx == 60 * idx) by (nonlinear_arith)
            requires
                ROW_PITCH == 60,
        ;
        let y: i64 = (self.layout_info.rect.origin.y as i64) + (ROW_INSET as i64) + (ROW_PITCH as i64)
            * (idx as i64);
        LayoutRect::new(LayoutPoint::new(x, y as i32), LayoutSize::new(ROW_WIDTH, ROW_HEIGHT))
    }

    /// Appends to `builder` the commands that draw the transcript: the
    /// background, then each entry in its row.
    pub fn render(&self, builder: &mut DisplayListBuilder)
        requires
            self@.renderable(),
        ensures
            final(builder)@ == old(builder)@ + self@.display_items(),
            self@.renders(old(builder)@, final(builder)@),
            final(builder)@.len() == old(builder)@.len() + 1 + 3 * self@.entries.len(),
    {
        let ghost before = builder@;
        builder.push_rect(&self.layout_info, background());
        let ghost painted = builder@;
        assert(painted =~= painted + self@.rows_paint(0));
        let mut idx: usize = 0;
        while idx < self.entries.len()
            invariant
                idx <= self.entries.len(),
                self@.renderable(),
                painted == before.push(
                    DisplayItem::Rectangle { info: self@.layout_info, color: spec_background() },
                ),
                builder@ == painted + self@.rows_paint(idx as nat),
            decreases self.entries.len() - idx,
        {
            assert(row_fits(self@.layout_info.rect, idx as int));
            let row = self.row_rect(idx);
            self.render_entry(&self.entries[idx], builder, LayoutPrimitiveInfo::new(row));
            assert(builder@ =~= painted + self@.rows_paint((idx + 1) as nat));
            idx += 1;
        }
        assert(builder@ =~= before + self@.display_items());
        proof {
            lemma_rows_paint_len(self@, self@.entries.len());
        }
    }

    /// Appends to `builder` the three commands that draw `e` in the row
    /// `layout_info`.
    pub fn render_entry(
        &self,
        e: &Entry,
        builder: &mut DisplayListBuilder,
        layout_info: LayoutPrimitiveInfo,
    )
        requires
            fields_fit(layout_info.rect),
        ensures
            final(builder)@ == old(builder)@ + entry_items(
                self@.font_instance_key,
                e@,
                layout_info.rect,
            ),
    {
        let ghost before = builder@;
        let row = layout_info.rect;
        let black = Color::black();
        let r = LayoutPrimitiveInfo::new(
            LayoutRect::new(
                LayoutPoint::new(row.origin.x, row.origin.y),
                LayoutSize::new(FIELD_WIDTH, row.size.height),
            ),
        );
        self.draw_text(builder, e.prompt(), r, black);
        let r = LayoutPrimitiveInfo::new(
            LayoutRect::new(
                LayoutPoint::new(row.origin.x + FIELD_OFFSET, row.origin.y),
                LayoutSize::new(row.size.width - FIELD_OFFSET, INPUT_HEIGHT),
            ),
        );
        self.draw_text(builder, e.input(), r, black);
        let r = LayoutPrimitiveInfo::new(
            LayoutRect::new(
                LayoutPoint::new(row.origin.x + FIELD_OFFSET, row.origin.y + INPUT_HEIGHT),
                LayoutSize::new(FIELD_WIDTH, row.size.height - INPUT_HEIGHT),
            ),
        );
        self.draw_text(builder, e.output(), r, black);
        assert(builder@ =~= before + entry_items(self@.font_instance_key, e@, row));
    }

    /// Appends to `builder` the command that draws `text` in the field
    /// `layout_info`, in the transcript's font.
    pub fn draw_text(
        &self,
        builder: &mut DisplayListBuilder,
        text: &String,
        layout_info: LayoutPrimitiveInfo,
        fgcolor: Color,
    )
        requires
            anchor_fits(layout_info.rect),
        ensures
            final(builder)@ == old(builder)@.push(
                text_item(self@.font_instance_key, *text, layout_info, fgcolor),
            ),
    {
        let origin = LayoutPoint::new(
            layout_info.rect.origin.x,
            layout_info.rect.origin.y + BASELINE,
        );
        builder.push_text(
            &layout_info,
            text.clone(),
            origin,
            FONT_SIZE,
            self.font_instance_key,
            fgcolor,
        );
    }
}

/// Row `idx` lies ten units in from the left and the top of the bounds and
/// sixty units below the row before it; it is a hundred units wide and twenty
/// high.
pub proof fn lemma_row_geometry(bounds: LayoutRect, idx: nat)
    requires
        row_fits(bounds, idx as int),
    ensures
        row_rect_at(bounds, idx as int).origin.x == bounds.origin.x + 10,
        row_rect_at(bounds, idx as int).origin.y == bounds.origin.y + 10 + 60 * idx,
        row_rect_at(bounds, idx as int).size == (LayoutSize { width: 100, height: 20 }),
{
}

/// The prompt field stands at the row's corner, fifty units wide and as high
/// as the row. The input field stands sixty units to the right, as wide as
/// what is left of the row and thirty units high. The output field stands
/// thirty units below the input field, fifty units wide and as high as what
/// is left of the row. In each field the pen starts twenty units below the
/// field's top.
pub proof fn lemma_field_geometry(row: LayoutRect)
    requires
        fields_fit(row),
    ensures
        prompt_rect(row).origin == row.origin,
        prompt_rect(row).size == (LayoutSize { width: 50, height: row.size.height }),
        input_rect(row).origin.x == row.origin.x + 60,
        input_rect(row).origin.y == row.origin.y,
        input_rect(row).size.width == row.size.width - 60,
        input_rect(row).size.height == 30,
        output_rect(row).origin.x == row.origin.x + 60,
        output_rect(row).origin.y == row.origin.y + 30,
        output_rect(row).size.width == 50,
        output_rect(row).size.height == row.size.height - 30,
        text_anchor(prompt_rect(row)).x == row.origin.x,
        text_anchor(prompt_rect(row)).y == row.origin.y + 20,
        text_anchor(input_rect(row)).x == row.origin.x + 60,
        text_anchor(input_rect(row)).y == row.origin.y + 20,
        text_anchor(output_rect(row)).x == row.origin.x + 60,
        text_anchor(output_rect(row)).y == row.origin.y + 50,
{
}

/// A transcript is drawn by one command for the background and three for
/// each entry.
pub proof fn lemma_rows_paint_len(transcript: TranscriptView, n: nat)
    requires
        n <= transcript.entries.len(),
    ensures
        transcript.rows_paint(n).len() == 3 * n,
        n == transcript.entries.len() ==> transcript.display_items().len() == 1 + 3 * n,
    decreases n,
{
    if n > 0 {
        lemma_rows_paint_len(transcript, (n - 1) as nat);
    }
}

/// Rendering one transcript into two empty lists leaves the two lists equal.
pub proof fn lemma_render_repeatable(
    transcript: TranscriptView,
    first: Seq<DisplayItem>,
    second: Seq<DisplayItem>,
)
    requires
        transcript.renders(Seq::empty(), first),
        transcript.renders(Seq::empty(), second),
    ensures
        first == second,
        first == transcript.display_items(),
{
    assert(Seq::<DisplayItem>::empty() + transcript.display_items()
        =~= transcript.display_items());
}

/// Appending an entry to `n` entries leaves `n + 1`, the new one last and the
/// others as they were.
pub proof fn lemma_append_entry(before: TranscriptView, after: TranscriptView, entry: EntryView)
    requires
        after == (TranscriptView { entries: before.entries.push(entry), ..before }),
    ensures
        after.entries.len() == before.entries.len() + 1,
        after.entries[before.entries.len() as int] == entry,
        forall|i: int| 0 <= i < before.entries.len() ==> after.entries[i] == before.entries[i],
{
}

} // verus!
