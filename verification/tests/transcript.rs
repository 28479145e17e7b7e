use trencadis::display_list::{DisplayItem, DisplayListBuilder, FontInstanceKey, FontKey};
use trencadis::geometry::{Color, LayoutPoint, LayoutPrimitiveInfo, LayoutRect, LayoutSize};
use trencadis::transcript::{
    anchor_in_range, background, fields_in_range, Entry, Transcript,
};

const FONT: FontKey = FontKey { namespace: 1, id: 7 };
const INSTANCE: FontInstanceKey = FontInstanceKey { namespace: 1, id: 8 };

fn rect_of(x: i32, y: i32, w: i32, h: i32) -> LayoutRect {
    LayoutRect::new(LayoutPoint::new(x, y), LayoutSize::new(w, h))
}

fn entry(prompt: &str, input: &str, output: &str) -> Entry {
    Entry::new(prompt.to_owned(), input.to_owned(), output.to_owned())
}

fn text(s: &str, x: i32, y: i32, w: i32, h: i32) -> DisplayItem {
    DisplayItem::Text {
        info: LayoutPrimitiveInfo::new(rect_of(x, y, w, h)),
        text: s.to_owned(),
        origin: LayoutPoint::new(x, y + 20),
        font_size: 14,
        font: INSTANCE,
        color: Color::new(0, 0, 0, 1000),
    }
}

fn sample() -> Transcript {
    Transcript::new_with_entries(
        FONT,
        INSTANCE,
        LayoutPrimitiveInfo::new(rect_of(30, 30, 600, 400)),
        vec![
            entry("[1]", "ls", "help_me.txt"),
            entry("[2]", "cat help_me.txt", "We're long past that."),
        ],
    )
}

#[test]
fn fresh_entry_is_pending() {
    let e = entry("[1]", "ls", "help_me.txt");
    assert_eq!(e.prompt(), "[1]");
    assert_eq!(e.input(), "ls");
    assert_eq!(e.output(), "help_me.txt");
    assert_eq!(e.elapsed(), 0);
    assert!(!e.is_complete());
}

#[test]
fn default_entry_is_empty_and_pending() {
    let e = Entry::default();
    assert_eq!(e.prompt(), "");
    assert_eq!(e.input(), "");
    assert_eq!(e.output(), "");
    assert_eq!(e.elapsed(), 0);
    assert!(!e.is_complete());
}

#[test]
fn completing_sets_the_flag_and_the_elapsed_time_once_and_for_all() {
    let mut e = entry("[1]", "ls", "help_me.txt");
    e.complete();
    assert!(e.is_complete());
    assert_eq!(e.elapsed(), 3);
    assert_eq!(e.input(), "ls");
    e.complete();
    assert!(e.is_complete());
    assert_eq!(e.elapsed(), 3);
    assert_eq!(e.prompt(), "[1]");
    assert_eq!(e.output(), "help_me.txt");
}

#[test]
fn append_returns_the_new_count() {
    let mut t = Transcript::new(FONT, INSTANCE, LayoutPrimitiveInfo::new(rect_of(0, 0, 10, 10)));
    assert_eq!(t.entries().len(), 0);
    assert_eq!(t.append_entry(entry("a", "b", "c")), 1);
    assert_eq!(t.append_entry(entry("d", "e", "f")), 2);
    assert_eq!(t.entries().len(), 2);
    assert_eq!(t.entries()[0].prompt(), "a");
    assert_eq!(t.entries()[1].output(), "f");
    assert_eq!(t.font_key(), FONT);
    assert_eq!(t.font_instance_key(), INSTANCE);
    assert_eq!(t.layout_info(), LayoutPrimitiveInfo::new(rect_of(0, 0, 10, 10)));
}

#[test]
fn complete_entry_touches_only_its_row() {
    let mut t = sample();
    t.complete_entry(1);
    assert!(!t.entries()[0].is_complete());
    assert_eq!(t.entries()[0].elapsed(), 0);
    assert!(t.entries()[1].is_complete());
    assert_eq!(t.entries()[1].elapsed(), 3);
    assert_eq!(t.entries()[1].input(), "cat help_me.txt");
}

#[test]
fn complete_entry_out_of_range_changes_nothing() {
    let mut t = sample();
    t.complete_entry(2);
    t.complete_entry(usize::MAX);
    assert_eq!(t.entries().len(), 2);
    for e in t.entries() {
        assert!(!e.is_complete());
        assert_eq!(e.elapsed(), 0);
    }
    let mut empty = Transcript::new(FONT, INSTANCE, LayoutPrimitiveInfo::new(rect_of(0, 0, 1, 1)));
    empty.complete_entry(0);
    assert_eq!(empty.entries().len(), 0);
}

#[test]
fn rows_of_the_sample_transcript() {
    let t = sample();
    assert_eq!(t.row_rect(0), rect_of(40, 40, 100, 20));
    assert_eq!(t.row_rect(0).max_x(), Some(140));
    assert_eq!(t.row_rect(0).max_y(), Some(60));
    assert_eq!(t.row_rect(1), rect_of(40, 100, 100, 20));
    assert_eq!(t.row_rect(1).max_x(), Some(140));
    assert_eq!(t.row_rect(1).max_y(), Some(120));
}

#[test]
fn row_pitch_is_sixty() {
    let t = Transcript::new(FONT, INSTANCE, LayoutPrimitiveInfo::new(rect_of(-5, 7, 1, 1)));
    assert_eq!(t.row_rect(0), rect_of(5, 17, 100, 20));
    assert_eq!(t.row_rect(10), rect_of(5, 617, 100, 20));
    assert_eq!(t.row_rect(1000), rect_of(5, 60017, 100, 20));
}

#[test]
fn row_at_the_edge_of_the_coordinate_range() {
    let t = Transcript::new(
        FONT,
        INSTANCE,
        LayoutPrimitiveInfo::new(rect_of(i32::MAX - 10, i32::MIN, 1, 1)),
    );
    assert_eq!(t.row_rect(71582788), rect_of(i32::MAX, 2147483642, 100, 20));
}

#[test]
fn sample_transcript_renders_background_and_three_fields_a_row() {
    let t = sample();
    assert!(t.can_render());
    let mut builder = DisplayListBuilder::new();
    t.render(&mut builder);
    let items = builder.finalize();
    assert_eq!(
        items,
        vec![
            DisplayItem::Rectangle {
                info: LayoutPrimitiveInfo::new(rect_of(30, 30, 600, 400)),
                color: Color::new(0, 1000, 0, 300),
            },
            text("[1]", 40, 40, 50, 20),
            text("ls", 100, 40, 40, 30),
            text("help_me.txt", 100, 70, 50, -10),
            text("[2]", 40, 100, 50, 20),
            text("cat help_me.txt", 100, 100, 40, 30),
            text("We're long past that.", 100, 130, 50, -10),
        ]
    );
    assert_eq!(background(), Color::new(0, 1000, 0, 300));
}

#[test]
fn each_row_has_prompt_width_fifty_input_height_thirty_output_thirty_below() {
    let t = sample();
    let mut builder = DisplayListBuilder::new();
    t.render(&mut builder);
    let items = builder.finalize();
    for row in 0..2 {
        let top = t.row_rect(row).min_y();
        match (&items[1 + 3 * row], &items[2 + 3 * row], &items[3 + 3 * row]) {
            (
                DisplayItem::Text { info: prompt, .. },
                DisplayItem::Text { info: input, .. },
                DisplayItem::Text { info: output, .. },
            ) => {
                assert_eq!(prompt.rect.size.width, 50);
                assert_eq!(input.rect.size.height, 30);
                assert_eq!(output.rect.min_y(), top + 30);
            }
            _ => panic!("a row is drawn by three runs of text"),
        }
    }
}

#[test]
fn empty_transcript_renders_its_background_alone() {
    let bounds = LayoutPrimitiveInfo::new(rect_of(i32::MAX, i32::MAX, 5, 5));
    let t = Transcript::new(FONT, INSTANCE, bounds);
    assert!(t.can_render());
    let mut builder = DisplayListBuilder::new();
    t.render(&mut builder);
    assert_eq!(
        builder.finalize(),
        vec![DisplayItem::Rectangle { info: bounds, color: Color::new(0, 1000, 0, 300) }]
    );
}

#[test]
fn render_entry_lays_out_the_fields_of_any_row() {
    let t = Transcript::new(FONT, INSTANCE, LayoutPrimitiveInfo::new(rect_of(0, 0, 1, 1)));
    let e = entry("p", "i", "o");
    let mut builder = DisplayListBuilder::new();
    t.render_entry(&e, &mut builder, LayoutPrimitiveInfo::new(rect_of(-100, 200, 300, 80)));
    assert_eq!(
        builder.finalize(),
        vec![
            text("p", -100, 200, 50, 80),
            text("i", -40, 200, 240, 30),
            text("o", -40, 230, 50, 50),
        ]
    );
}

#[test]
fn draw_text_starts_the_pen_twenty_below_the_top() {
    let t = Transcript::new(FONT, INSTANCE, LayoutPrimitiveInfo::new(rect_of(0, 0, 1, 1)));
    let mut builder = DisplayListBuilder::new();
    let red = Color::new(1000, 0, 0, 1000);
    t.draw_text(
        &mut builder,
        &"hello".to_owned(),
        LayoutPrimitiveInfo::new(rect_of(3, 4, 5, 6)),
        red,
    );
    assert_eq!(
        builder.finalize(),
        vec![DisplayItem::Text {
            info: LayoutPrimitiveInfo::new(rect_of(3, 4, 5, 6)),
            text: "hello".to_owned(),
            origin: LayoutPoint::new(3, 24),
            font_size: 14,
            font: INSTANCE,
            color: red,
        }]
    );
}

#[test]
fn can_render_knows_the_coordinate_range() {
    let at = |x: i32, y: i32, rows: usize| {
        let mut t = Transcript::new(FONT, INSTANCE, LayoutPrimitiveInfo::new(rect_of(x, y, 1, 1)));
        for _ in 0..rows {
            t.append_entry(entry("", "", ""));
        }
        t.can_render()
    };
    assert!(at(i32::MAX, i32::MAX, 0));
    assert!(at(i32::MAX - 70, 0, 1));
    assert!(!at(i32::MAX - 69, 0, 1));
    assert!(at(0, i32::MAX - 60, 1));
    assert!(!at(0, i32::MAX - 59, 1));
    assert!(at(0, i32::MAX - 180, 3));
    assert!(!at(0, i32::MAX - 179, 3));
    assert!(at(i32::MIN, i32::MIN, 4));
}

#[test]
fn rendering_twice_gives_the_same_list() {
    let mut t = sample();
    t.complete_entry(0);
    let mut first = DisplayListBuilder::new();
    t.render(&mut first);
    let mut second = DisplayListBuilder::new();
    t.render(&mut second);
    assert_eq!(first.len(), 7);
    assert_eq!(first.finalize(), second.finalize());
}

#[test]
fn font_instance_is_asked_for_at_fourteen_pixels_in_app_units() {
    let t = sample();
    let request = t.font_instance_request();
    assert_eq!(request.font_key, FONT);
    assert_eq!(request.font_instance_key, INSTANCE);
    assert_eq!(request.size, 840);
}

#[test]
fn range_checks_follow_the_geometry() {
    let t = Transcript::new(FONT, INSTANCE, LayoutPrimitiveInfo::new(rect_of(0, i32::MAX - 70, 1, 1)));
    assert!(t.row_in_range(0));
    assert!(t.row_in_range(1));
    assert!(!t.row_in_range(2));
    assert!(!t.row_in_range(usize::MAX));
    let far = Transcript::new(FONT, INSTANCE, LayoutPrimitiveInfo::new(rect_of(i32::MAX - 9, 0, 1, 1)));
    assert!(!far.row_in_range(0));
    let low = Transcript::new(FONT, INSTANCE, LayoutPrimitiveInfo::new(rect_of(0, i32::MIN, 1, 1)));
    assert!(low.row_in_range(71582788));
    assert!(!low.row_in_range(71582789));

    assert!(anchor_in_range(rect_of(0, i32::MAX - 20, 0, 0)));
    assert!(!anchor_in_range(rect_of(0, i32::MAX - 19, 0, 0)));

    assert!(fields_in_range(rect_of(i32::MAX - 60, i32::MAX - 50, i32::MIN + 60, i32::MIN + 30)));
    assert!(!fields_in_range(rect_of(i32::MAX - 59, 0, 100, 20)));
    assert!(!fields_in_range(rect_of(0, i32::MAX - 49, 100, 20)));
    assert!(!fields_in_range(rect_of(0, 0, i32::MIN + 59, 20)));
    assert!(!fields_in_range(rect_of(0, 0, 100, i32::MIN + 29)));
    assert!(fields_in_range(rect_of(40, 40, 100, 20)));
}
