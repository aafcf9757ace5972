use brushwork::geometry::{span, AxisPos, StampPoint, UPoint};
use brushwork::mix_methods::MixMethod;
use brushwork::naming::NameCounter;
use brushwork::patterns::{ColorMap, ComplexColor, PatternGeneratingFunc, SolidColor};
use brushwork::pressure_mask::{MaskFunction, MaskGeneratingFunc, UniformMask, OPACITY_ONE};
use brushwork::raster::Raster;
use brushwork::tools::{Brush, PointTool};

const RED: [u8; 4] = [255, 0, 0, 255];
const WHITE: [u8; 4] = [255, 255, 255, 255];

fn solid_brush(size: u32, color: [u8; 4], law: MixMethod, width: u8, opacity: u32) -> Brush<UniformMask, SolidColor> {
    let mut counter = NameCounter::new();
    Brush {
        mask_generating_func: MaskGeneratingFunc::new(Some("overwrite".to_string()), UniformMask { opacity }, &mut counter),
        pattern_generating_func: PatternGeneratingFunc::new(Some("dot".to_string()), SolidColor { color }, &mut counter),
        size: UPoint::new(size, size),
        mix_method: law,
        mix_width: width,
    }
}

fn at(x: i64, y: i64) -> StampPoint {
    StampPoint { x: AxisPos::whole(x), y: AxisPos::whole(y) }
}

#[test]
fn off_canvas_stamp_changes_nothing() {
    let mut canvas = Raster::filled(8, 8, WHITE);
    let before = canvas.to_bytes();
    let brush = solid_brush(4, RED, MixMethod::Normal, 4, OPACITY_ONE);
    brush.apply(&mut canvas, at(-5, -5));
    brush.apply(&mut canvas, at(-2, 3));
    brush.apply(&mut canvas, at(3, -2));
    brush.apply(&mut canvas, at(10, 3));
    assert_eq!(canvas.to_bytes(), before);
}

#[test]
fn on_canvas_solid_stamp_paints_footprint() {
    let mut canvas = Raster::filled(8, 8, WHITE);
    let brush = solid_brush(4, RED, MixMethod::Normal, 4, OPACITY_ONE);
    brush.apply(&mut canvas, at(4, 4));
    for x in 0..8u32 {
        for y in 0..8u32 {
            let inside = (2..6).contains(&x) && (2..6).contains(&y);
            let want = if inside { RED } else { WHITE };
            assert_eq!(canvas.pixel_at(x, y), Some(want), "pixel ({}, {})", x, y);
        }
    }
}

#[test]
fn normal_stamp_twice_equals_once() {
    let brush = solid_brush(4, [10, 20, 30, 40], MixMethod::Normal, 4, OPACITY_ONE / 2);
    let mut once = Raster::filled(6, 6, WHITE);
    brush.apply(&mut once, at(2, 3));
    let mut twice = Raster::filled(6, 6, WHITE);
    brush.apply(&mut twice, at(2, 3));
    brush.apply(&mut twice, at(2, 3));
    assert_eq!(once.to_bytes(), twice.to_bytes());
}

#[test]
fn fractional_location_covers_one_pixel_less() {
    let mut canvas = Raster::filled(8, 8, WHITE);
    let brush = solid_brush(4, RED, MixMethod::Normal, 4, OPACITY_ONE);
    // x in (4, 5): pixels ceil(x) - 2 .. floor(x) + 2 = 3..6
    let loc = StampPoint { x: AxisPos::inside(4), y: AxisPos::whole(4) };
    brush.apply(&mut canvas, loc);
    assert_eq!(canvas.pixel_at(2, 4), Some(WHITE));
    assert_eq!(canvas.pixel_at(3, 4), Some(RED));
    assert_eq!(canvas.pixel_at(5, 4), Some(RED));
    assert_eq!(canvas.pixel_at(6, 4), Some(WHITE));
}

#[test]
fn clipped_stamp_samples_from_overlap_corner() {
    // 2x2 pattern: only cell (0, 0) covered; uncovered cells give the default color.
    let pattern = ComplexColor::new(UPoint::new(2, 2), vec![1, 0, 0, 0], WHITE, ColorMap::Color(RED)).unwrap();
    let mut counter = NameCounter::new();
    let brush = Brush {
        mask_generating_func: MaskGeneratingFunc::new(None, UniformMask { opacity: OPACITY_ONE }, &mut counter),
        pattern_generating_func: PatternGeneratingFunc::new(None, pattern, &mut counter),
        size: UPoint::new(2, 2),
        mix_method: MixMethod::Normal,
        mix_width: 4,
    };
    let black = [0, 0, 0, 255];
    let mut canvas = Raster::filled(4, 4, black);
    // Footprint [-1, 1) x [-1, 1) is clipped to the single pixel (0, 0), which samples cell (0, 0).
    brush.apply(&mut canvas, at(0, 0));
    assert_eq!(canvas.pixel_at(0, 0), Some(RED));
    assert_eq!(canvas.pixel_at(1, 0), Some(black));
    // Footprint [1, 3) x [1, 3): cell (0, 0) lands on (1, 1), the others take the default.
    brush.apply(&mut canvas, at(2, 2));
    assert_eq!(canvas.pixel_at(1, 1), Some(RED));
    assert_eq!(canvas.pixel_at(2, 1), Some(WHITE));
    assert_eq!(canvas.pixel_at(2, 2), Some(WHITE));
    assert_eq!(canvas.pixel_at(3, 3), Some(black));
}

#[test]
fn three_channel_stamp_makes_alpha_opaque() {
    let mut canvas = Raster::filled(4, 4, [100, 100, 100, 7]);
    let brush = solid_brush(2, [50, 60, 70, 0], MixMethod::Lighten, 3, OPACITY_ONE);
    brush.apply(&mut canvas, at(1, 1));
    assert_eq!(canvas.pixel_at(0, 0), Some([100, 100, 100, 255]));
    assert_eq!(canvas.pixel_at(2, 2), Some([100, 100, 100, 7]));
}

#[test]
fn other_width_leaves_canvas() {
    let mut canvas = Raster::filled(4, 4, WHITE);
    let before = canvas.to_bytes();
    let brush = solid_brush(4, RED, MixMethod::Normal, 2, OPACITY_ONE);
    brush.apply(&mut canvas, at(2, 2));
    assert_eq!(canvas.to_bytes(), before);
}

#[test]
fn mask_scales_every_channel() {
    let mut canvas = Raster::filled(4, 4, WHITE);
    let brush = solid_brush(2, [200, 100, 51, 255], MixMethod::Normal, 4, OPACITY_ONE / 2);
    brush.apply(&mut canvas, at(1, 1));
    // half of each channel, rounded half up: 100, 50, 25.5 -> 26, 127.5 -> 128
    assert_eq!(canvas.pixel_at(0, 0), Some([100, 50, 26, 128]));
}

#[test]
fn over_full_mask_saturates() {
    let mut canvas = Raster::filled(4, 4, [0, 0, 0, 0]);
    let brush = solid_brush(2, [200, 100, 0, 255], MixMethod::Normal, 4, 2 * OPACITY_ONE);
    brush.apply(&mut canvas, at(1, 1));
    assert_eq!(canvas.pixel_at(0, 0), Some([255, 200, 0, 255]));
}

#[test]
fn one_pixel_brush_paints_nothing() {
    let mut canvas = Raster::filled(4, 4, WHITE);
    let before = canvas.to_bytes();
    let brush = solid_brush(1, RED, MixMethod::Normal, 4, OPACITY_ONE);
    brush.apply(&mut canvas, at(2, 2));
    assert_eq!(canvas.to_bytes(), before);
}

#[test]
fn spans_clip_to_the_canvas() {
    assert_eq!(span(AxisPos::whole(0), 2, 10), (0, 2));
    assert_eq!(span(AxisPos::whole(9), 2, 10), (7, 10));
    assert_eq!(span(AxisPos::whole(-2), 2, 10), (0, 0));
    assert_eq!(span(AxisPos::whole(12), 2, 10), (0, 0));
    assert_eq!(span(AxisPos::inside(-2), 2, 10), (0, 0));
    assert_eq!(span(AxisPos::inside(3), 2, 10), (2, 5));
}

#[test]
fn uniform_mask_is_constant() {
    let m = UniformMask { opacity: 7 };
    assert_eq!(m.opacity(3, 4, &UPoint::new(9, 9)), 7);
}

#[test]
fn unnamed_functions_are_numbered() {
    let mut counter = NameCounter::new();
    let a = MaskGeneratingFunc::new(None, UniformMask { opacity: 1 }, &mut counter);
    let b = MaskGeneratingFunc::new(Some("soft".to_string()), UniformMask { opacity: 1 }, &mut counter);
    let c = PatternGeneratingFunc::new(None, SolidColor { color: RED }, &mut counter);
    assert_eq!(a.name, "UnnamedMaskGeneratingFunc0");
    assert_eq!(b.name, "soft");
    assert_eq!(c.name, "UnnamedPatternGeneratingFunc2");
    assert_eq!(counter.next, 3);
    for _ in 0..10 {
        counter.take();
    }
    let d = MaskGeneratingFunc::new(None, UniformMask { opacity: 1 }, &mut counter);
    assert_eq!(d.name, "UnnamedMaskGeneratingFunc13");
}
