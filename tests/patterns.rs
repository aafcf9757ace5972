use brushwork::disk::{cake_generate, quartar_cake_generate, quartar_cake_generate_use_default, DiskRadius};
use brushwork::geometry::UPoint;
use brushwork::patterns::{coord_key, ColorMap, ComplexColor, PatternFunction, SolidColor, BLACK};
use brushwork::raster::Raster;
use std::collections::HashMap;

#[test]
fn test_cake_generate() {
    {
        let expected = 123u8;
        let defa = 0u8;
        let v = quartar_cake_generate(DiskRadius::from_pixels(1), defa, |_a, _b| expected);
        assert_eq!(v.len(), 1);
        assert_eq!(v[0], expected);
    }
    {
        let expected = 123u8;
        let defa = 0u8;
        let v = quartar_cake_generate(DiskRadius::from_pixels(2), defa, |_a, _b| expected);
        assert_eq!(v.len(), 4);
        assert_eq!(v[0], expected);
        assert_eq!(v[1], expected);
        assert_eq!(v[2], expected);
        assert_eq!(v[3], defa);
    }
    {
        let expected = 123u8;
        let defa = 0u8;
        let v = quartar_cake_generate(DiskRadius::from_pixels(3), defa, |_a, _b| expected);
        assert_eq!(v.len(), 9);
        assert_eq!(v[0], expected);
        assert_eq!(v[1], expected);
        assert_eq!(v[2], expected);
        assert_eq!(v[3], expected);
    }
}

#[test]
fn quarter_disk_of_zero_radius_is_empty() {
    let v = quartar_cake_generate(DiskRadius::from_pixels(0), 0u8, |_a, _b| 9u8);
    assert!(v.is_empty());
}

#[test]
fn quarter_disk_near_one_pixel_is_single_cell() {
    // exactly one pixel
    let v = quartar_cake_generate(DiskRadius { fixed: 65536 }, 0u8, |a, b| (a + b + 7) as u8);
    assert_eq!(v, vec![7u8]);
}

#[test]
fn quarter_disk_passes_cell_indices() {
    let v = quartar_cake_generate(DiskRadius::from_pixels(3), (9usize, 9usize), |a, b| (a, b));
    // radius 3: quantized radius 2 * sqrt(2), so i*i + j*j < 8.
    assert_eq!(v.len(), 9);
    assert_eq!(v[0], (0, 0));
    assert_eq!(v[2], (0, 2));
    assert_eq!(v[4], (1, 1));
    assert_eq!(v[5], (1, 2));
    assert_eq!(v[6], (2, 0));
    assert_eq!(v[7], (2, 1));
    assert_eq!(v[8], (9, 9));
}

#[test]
fn quarter_disk_of_fractional_radius() {
    // 2.5 pixels: width 3, quantized radius sqrt(2), so i*i + j*j < 2.
    let v = quartar_cake_generate(DiskRadius { fixed: 5 * 65536 / 2 }, 0u8, |_a, _b| 1u8);
    assert_eq!(v, vec![1, 1, 0, 1, 0, 0, 0, 0, 0]);
}

#[test]
fn quarter_disk_with_default_fill() {
    let v: Vec<u8> = quartar_cake_generate_use_default(DiskRadius::from_pixels(2), |_a, _b| 5u8);
    assert_eq!(v, vec![5, 5, 5, 0]);
}

#[test]
fn full_disk_of_radius_two() {
    let g = cake_generate(DiskRadius::from_pixels(2), 0i32, |dx, dy| (10 * dx + dy) as i32 + 100);
    assert_eq!(g.len(), 4);
    for row in &g {
        assert_eq!(row.len(), 4);
    }
    // Offsets from (2, 2); inside where dx*dx + dy*dy < 2.
    assert_eq!(g[2][2], 100);
    assert_eq!(g[1][2], 90);
    assert_eq!(g[3][2], 110);
    assert_eq!(g[2][1], 99);
    assert_eq!(g[2][3], 101);
    assert_eq!(g[1][1], 0);
    assert_eq!(g[0][0], 0);
    assert_eq!(g[3][3], 0);
}

#[test]
fn full_disk_edge_radii() {
    let one = cake_generate(DiskRadius::from_pixels(1), 0u8, |dx, dy| (dx + dy + 4) as u8);
    assert_eq!(one, vec![vec![4u8]]);
    let none = cake_generate(DiskRadius::from_pixels(0), 0u8, |_dx, _dy| 1u8);
    assert!(none.is_empty());
}

fn solid_pattern(size: UPoint, coverage: Vec<u8>, color: [u8; 4]) -> ComplexColor {
    ComplexColor::new(size, coverage, [1, 2, 3, 4], ColorMap::Color(color)).unwrap()
}

#[test]
fn pattern_has_no_color_outside_its_box() {
    let p = solid_pattern(UPoint::new(2, 2), vec![1, 1, 1, 1], [9, 9, 9, 9]);
    assert_eq!(p.get_color_at(UPoint::new(2, 0)), None);
    assert_eq!(p.get_color_at(UPoint::new(0, 2)), None);
    assert_eq!(p.get_color_at(UPoint::new(5, 7)), None);
    assert_eq!(p.get_color_at(UPoint::new(1, 1)), Some([9, 9, 9, 9]));
}

#[test]
fn uncovered_cell_takes_default_color() {
    // Cell (x, y) sits at x * width + y.
    let p = solid_pattern(UPoint::new(2, 2), vec![1, 0, 1, 1], [9, 9, 9, 9]);
    assert_eq!(p.get_color_at(UPoint::new(0, 1)), Some([1, 2, 3, 4]));
    assert_eq!(p.get_color_at(UPoint::new(1, 0)), Some([9, 9, 9, 9]));
}

#[test]
fn coverage_index_uses_x_as_outer_stride() {
    // width 3, height 2: cell (1, 0) is flag 3, cell (0, 1) is flag 1.
    let p = solid_pattern(UPoint::new(3, 2), vec![1, 0, 1, 0, 1, 1], [9, 9, 9, 9]);
    assert_eq!(p.get_color_at(UPoint::new(1, 0)), Some([1, 2, 3, 4]));
    assert_eq!(p.get_color_at(UPoint::new(0, 1)), Some([1, 2, 3, 4]));
    assert_eq!(p.get_color_at(UPoint::new(1, 1)), Some([9, 9, 9, 9]));
    // cell (2, 1) would be flag 7, past the buffer.
    assert_eq!(p.get_color_at(UPoint::new(2, 1)), None);
}

#[test]
fn pattern_needs_one_flag_per_cell() {
    assert!(ComplexColor::new(UPoint::new(2, 2), vec![1, 1, 1], BLACK, ColorMap::Color(BLACK)).is_none());
    assert!(ComplexColor::new(UPoint::new(2, 3), vec![0; 6], BLACK, ColorMap::Color(BLACK)).is_some());
}

#[test]
fn coordinate_table_source() {
    let mut table = HashMap::new();
    table.insert(coord_key(UPoint::new(1, 0)), [5, 6, 7, 8]);
    let p = ComplexColor::new(UPoint::new(2, 2), vec![1, 1, 1, 1], BLACK, ColorMap::CoordColor(table)).unwrap();
    assert_eq!(p.get_color_at(UPoint::new(1, 0)), Some([5, 6, 7, 8]));
    assert_eq!(p.get_color_at(UPoint::new(0, 1)), None);
}

#[test]
fn coordinate_keys_are_distinct() {
    assert_eq!(coord_key(UPoint::new(0, 1)), 1);
    assert_eq!(coord_key(UPoint::new(1, 0)), 0x1_0000_0000);
    assert_ne!(coord_key(UPoint::new(1, 2)), coord_key(UPoint::new(2, 1)));
}

#[test]
fn raster_image_source() {
    let mut bytes = vec![0u8; 4 * 2 * 1];
    bytes[4..8].copy_from_slice(&[10, 20, 30, 40]);
    let img = Raster::from_bytes(2, 1, bytes).unwrap();
    let p = ComplexColor::new(UPoint::new(2, 2), vec![1, 1, 1, 1], BLACK, ColorMap::Image(img)).unwrap();
    assert_eq!(p.get_color_at(UPoint::new(1, 0)), Some([10, 20, 30, 40]));
    assert_eq!(p.get_color_at(UPoint::new(0, 0)), Some([0, 0, 0, 0]));
    // inside the pattern, outside the one-row image
    assert_eq!(p.get_color_at(UPoint::new(0, 1)), None);
}

#[test]
fn pattern_center_rounds_toward_top_left() {
    let p = solid_pattern(UPoint::new(4, 5), vec![1; 20], BLACK);
    assert_eq!(p.center(), UPoint::new(2, 2));
    let q = solid_pattern(UPoint::new(1, 1), vec![1], BLACK);
    assert_eq!(q.center(), UPoint::new(0, 0));
}

#[test]
fn default_pattern_is_one_black_cell() {
    let p = ComplexColor::default();
    assert_eq!(p.center(), UPoint::new(0, 0));
    assert_eq!(p.get_color_at(UPoint::new(0, 0)), Some([0, 0, 0, 255]));
    assert_eq!(p.get_color_at(UPoint::new(1, 0)), None);
}

#[test]
fn pattern_functions_sample_cells() {
    let s = SolidColor { color: [1, 1, 1, 1] };
    assert_eq!(s.color_at(100, 100, &UPoint::new(1, 1)), Some([1, 1, 1, 1]));
    let p = solid_pattern(UPoint::new(1, 1), vec![1], [3, 3, 3, 3]);
    assert_eq!(PatternFunction::color_at(&p, 0, 0, &UPoint::new(1, 1)), Some([3, 3, 3, 3]));
    assert_eq!(PatternFunction::color_at(&p, 1, 0, &UPoint::new(1, 1)), None);
}
