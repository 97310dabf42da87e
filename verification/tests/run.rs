use fyrox_ui::run::{Brush, DrawValueLayer, FontResource, Run, RunSet};

#[test]
fn later_run_overrides_only_what_it_sets() {
    let mut runs = RunSet::default();
    runs.push(Run::new(0..5).with_font(FontResource(1)).with_size(0x4100_0000));
    runs.push(Run::new(2..3).with_brush(Brush(7)));
    assert_eq!(runs.len(), 2);
    assert_eq!(runs.font_at(2), Some(FontResource(1)));
    assert_eq!(runs.brush_at(2), Some(Brush(7)));
    assert_eq!(runs.brush_at(4), None);
    assert_eq!(runs.font_size_at(4), Some(0x4100_0000));
    assert_eq!(runs.font_at(7), None);
}

#[test]
fn later_run_wins_where_both_set() {
    let mut runs = RunSet::default();
    runs.push(Run::new(0..10).with_brush(Brush(1)));
    runs.push(Run::new(3..6).with_brush(Brush(2)));
    assert_eq!(runs.brush_at(2), Some(Brush(1)));
    assert_eq!(runs.brush_at(3), Some(Brush(2)));
    assert_eq!(runs.brush_at(6), Some(Brush(1)));
}

#[test]
fn run_with_same_range_is_merged_into_last() {
    let mut runs = RunSet::default();
    runs.push(Run::new(1..4).with_font(FontResource(3)));
    runs.push(Run::new(1..4).with_shadow(true).with_shadow_brush(Brush(9)));
    assert_eq!(runs.len(), 1);
    assert_eq!(runs.font_at(1), Some(FontResource(3)));
    assert_eq!(runs.shadow_at(1), Some(true));
    assert_eq!(runs.shadow_brush_at(3), Some(Brush(9)));
    runs.push(Run::new(1..4).with_font(FontResource(4)));
    assert_eq!(runs.len(), 1);
    assert_eq!(runs.font_at(2), Some(FontResource(4)));
    assert_eq!(runs.shadow_at(2), Some(true));
}

#[test]
fn run_values_and_builders() {
    let r = Run::new(0..2)
        .with_shadow_dilation(5)
        .with_shadow_offset((1, 2));
    assert_eq!(r.shadow_dilation(), Some(5));
    assert_eq!(r.shadow_offset(), Some((1, 2)));
    assert_eq!(r.font(), None);
    let merged = Run::new(0..2).with_font(FontResource(8)).with_values_from(r);
    assert_eq!(merged.font(), Some(FontResource(8)));
    assert_eq!(merged.shadow_dilation(), Some(5));
    let runs = RunSet::from_runs(vec![merged]);
    assert_eq!(runs.shadow_dilation_at(1), Some(5));
    assert_eq!(runs.shadow_offset_at(0), Some((1, 2)));
    assert!(!runs.is_empty());
    assert_eq!(runs.runs().len(), 1);
}

#[test]
fn glyph_draw_values_fall_back_to_text_values() {
    let mut runs = RunSet::default();
    runs.push(Run::new(0..2).with_brush(Brush(5)).with_shadow_brush(Brush(6)));
    let main = runs.get_glyph_draw_values(DrawValueLayer::Main, 3, 1, FontResource(1), Brush(2), Brush(3), 77);
    assert_eq!(main.atlas_page_index, 3);
    assert_eq!(main.font, FontResource(1));
    assert_eq!(main.brush, Brush(5));
    assert_eq!(main.height, 77);
    let shadow = runs.get_glyph_draw_values(DrawValueLayer::Shadow, 0, 1, FontResource(1), Brush(2), Brush(3), 77);
    assert_eq!(shadow.brush, Brush(6));
    let outside = runs.get_glyph_draw_values(DrawValueLayer::Shadow, 0, 5, FontResource(1), Brush(2), Brush(3), 77);
    assert_eq!(outside.brush, Brush(3));
}
