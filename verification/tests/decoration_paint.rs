use flamewm_wm_x11::chrome::RgbaRaster;
use flamewm_wm_x11::decoration::model::FrameSnapshot;
use flamewm_wm_x11::decoration::paint::{
    close_hover_rect, paint_outcome, paint_plan, zpixmap, Blit, PaintRect, PaintSkip,
    BUNDLED_CURSOR_GLYPH, CLOSE_HOVER_FILL, CURSOR_THEME,
};
use flamewm_wm_x11::geometry::Rect;

fn snapshot(width: u32, titlebar_height: u16) -> FrameSnapshot {
    FrameSnapshot {
        frame: 1,
        outer: Rect::new(0, 0, width, 300),
        title: String::new(),
        title_text_width: 0,
        has_native_icon: false,
        has_catalog_icon: false,
        hover: None,
        active: true,
        maximized: false,
        fullscreen: false,
        close_hover: true,
        titlebar_height,
    }
}

#[test]
fn t27_close_hover_fill_is_flame_red() {
    assert_eq!(CLOSE_HOVER_FILL, (0xef, 0x40, 0x48));
    assert_eq!(CURSOR_THEME, "Breeze-Dark");
    let rect = close_hover_rect(&snapshot(400, 31), 38);
    assert_eq!((rect.width, rect.height), (38, 31));
    assert_eq!(rect.x, 400 - 38);
}

#[test]
fn close_hover_rect_clamps_narrow_and_wide_frames() {
    let narrow = close_hover_rect(&snapshot(20, 31), 38);
    assert_eq!(narrow, PaintRect { x: 0, y: 0, width: 38, height: 31 });
    let wide = close_hover_rect(&snapshot(100_000, 0), 38);
    assert_eq!(wide, PaintRect { x: -39, y: 0, width: 38, height: 1 });
}

#[test]
fn bundled_cursor_is_left_ptr() {
    assert_eq!(BUNDLED_CURSOR_GLYPH, 68);
}

#[test]
fn paint_plan_skips_non_24_bit_frames() {
    assert!(paint_plan(400, 32, 31, 400, true, false, 16, true, 3, 38, 16, 20, 6).is_none());
    assert!(paint_plan(400, 8, 31, 400, false, true, 0, false, 0, 38, 16, 20, 6).is_none());
}

#[test]
fn paint_plan_places_fill_icon_and_controls() {
    let plan = paint_plan(400, 24, 31, 400, true, false, 16, true, 3, 38, 16, 20, 6).unwrap();
    assert_eq!(plan.background, PaintRect { x: 0, y: 0, width: 400, height: 31 });
    assert_eq!(plan.close_hover, Some(PaintRect { x: 362, y: 0, width: 38, height: 31 }));
    assert!(plan.title_drawn);
    assert_eq!(plan.icon, Some(Blit { x: 6, y: 7, width: 16, height: 16 }));
    assert_eq!(
        plan.controls,
        vec![
            Blit { x: 373, y: 7, width: 16, height: 16 },
            Blit { x: 335, y: 7, width: 16, height: 16 },
            Blit { x: 297, y: 7, width: 16, height: 16 },
        ]
    );
}

#[test]
fn paint_plan_caps_icon_slot_at_visual_edge() {
    let capped = paint_plan(400, 24, 31, 400, false, false, 24, true, 0, 38, 16, 20, 6).unwrap();
    assert_eq!(capped.icon, Some(Blit { x: 6, y: 5, width: 20, height: 20 }));
    let tiny = paint_plan(400, 24, 31, 400, false, false, 0, true, 0, 38, 16, 20, 6).unwrap();
    assert_eq!(tiny.icon, Some(Blit { x: 6, y: 15, width: 1, height: 1 }));
}

#[test]
fn paint_plan_without_title_hover_or_icon() {
    let plan = paint_plan(400, 24, 31, 400, false, true, 16, false, 0, 38, 16, 20, 6).unwrap();
    assert!(!plan.title_drawn);
    assert_eq!(plan.close_hover, None);
    assert_eq!(plan.icon, None);
    assert!(plan.controls.is_empty());
}

#[test]
fn paint_plan_clamps_controls_left_of_the_frame() {
    let plan = paint_plan(50, 24, 31, 50, false, false, 16, false, 3, 38, 16, 20, 6).unwrap();
    let xs: Vec<i16> = plan.controls.iter().map(|b| b.x).collect();
    assert_eq!(xs, vec![23, 0, 0]);
}

#[test]
fn paint_plan_zero_titlebar_counts_as_one() {
    let plan = paint_plan(400, 24, 0, 400, false, false, 16, false, 1, 38, 16, 20, 6).unwrap();
    assert_eq!(plan.background.height, 1);
    assert_eq!(plan.controls[0].y, 0);
}

#[test]
fn paint_plan_truncates_icon_pad_to_16_bits() {
    let wide = paint_plan(400, 24, 31, 400, false, false, 16, true, 0, 38, 16, 20, 70_000).unwrap();
    assert_eq!(wide.icon.unwrap().x, 4464);
    let negative = paint_plan(400, 24, 31, 400, false, false, 16, true, 0, 38, 16, 20, -1).unwrap();
    assert_eq!(negative.icon.unwrap().x, -1);
}

#[test]
fn zpixmap_packs_by_byte_order() {
    let raster = RgbaRaster { width: 1, height: 1, pixels: vec![10, 20, 30, 255] };
    assert_eq!(zpixmap(&raster, 2, 2, true), [30, 20, 10, 0].repeat(4));
    assert_eq!(zpixmap(&raster, 2, 2, false), [0, 10, 20, 30].repeat(4));
}

#[test]
fn zpixmap_scales_nearest_neighbour() {
    let raster = RgbaRaster { width: 2, height: 1, pixels: vec![1, 2, 3, 4, 5, 6, 7, 8] };
    assert_eq!(zpixmap(&raster, 1, 1, true), vec![3, 2, 1, 0]);
    assert_eq!(zpixmap(&raster, 4, 1, false), vec![0, 1, 2, 3, 0, 1, 2, 3, 0, 5, 6, 7, 0, 5, 6, 7]);
}

#[test]
fn zpixmap_short_buffer_reads_black() {
    let raster = RgbaRaster { width: 2, height: 1, pixels: vec![9, 9, 9, 9] };
    assert_eq!(zpixmap(&raster, 2, 1, false), vec![0, 9, 9, 9, 0, 0, 0, 0]);
}

#[test]
fn zpixmap_zero_extents_count_as_one() {
    let raster = RgbaRaster { width: 0, height: 0, pixels: vec![7, 8, 9, 1] };
    assert_eq!(zpixmap(&raster, 0, 0, true), vec![9, 8, 7, 0]);
}

#[test]
fn paint_outcome_all_steps_succeed() {
    let outcome = paint_outcome(true, true, 24, false, Some(true), &[true, true, true]);
    assert!(outcome.cursor_defined && outcome.shape_applied);
    assert!(outcome.background_filled && outcome.title_drawn);
    assert_eq!(outcome.icons_blitted, 4);
    assert!(outcome.skipped.is_empty());
}

#[test]
fn paint_outcome_stops_on_non_24_bit_frame() {
    let outcome = paint_outcome(true, false, 32, false, Some(true), &[true]);
    assert!(outcome.cursor_defined && !outcome.shape_applied);
    assert!(!outcome.background_filled && !outcome.title_drawn);
    assert_eq!(outcome.icons_blitted, 0);
    assert_eq!(outcome.skipped, vec![PaintSkip::ShapeUnavailable, PaintSkip::Non24BitFrame]);
}

#[test]
fn paint_outcome_records_every_skip_in_order() {
    let outcome = paint_outcome(false, false, 24, true, Some(false), &[true, false, true]);
    assert!(!outcome.title_drawn);
    assert_eq!(outcome.icons_blitted, 1);
    assert_eq!(
        outcome.skipped,
        vec![
            PaintSkip::CursorUnavailable,
            PaintSkip::ShapeUnavailable,
            PaintSkip::TitleEmpty,
            PaintSkip::IconBlitFailed,
            PaintSkip::ControlBlitFailed,
        ]
    );
    let names: Vec<&str> = outcome.skipped.iter().map(|s| s.reason()).collect();
    assert_eq!(
        names,
        vec![
            "cursor-unavailable",
            "shape-unavailable",
            "title-empty",
            "icon-blit-failed",
            "control-blit-failed",
        ]
    );
    assert_eq!(PaintSkip::Non24BitFrame.reason(), "non-24bit-frame");
}

#[test]
fn paint_outcome_blit_count_saturates() {
    let results = vec![true; 300];
    let outcome = paint_outcome(true, true, 24, false, None, &results);
    assert_eq!(outcome.icons_blitted, 255);
    assert!(outcome.skipped.is_empty());
}
