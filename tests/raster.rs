use brushwork::geometry::UPoint;
use brushwork::raster::Raster;

#[test]
fn filled_raster_has_one_color() {
    let r = Raster::filled(3, 2, [1, 2, 3, 4]);
    assert_eq!(r.size(), UPoint::new(3, 2));
    assert_eq!(r.pixel_at(2, 1), Some([1, 2, 3, 4]));
    assert_eq!(r.to_bytes(), [1, 2, 3, 4].repeat(6));
}

#[test]
fn raster_has_no_pixel_outside() {
    let r = Raster::filled(3, 2, [1, 2, 3, 4]);
    assert_eq!(r.pixel_at(3, 0), None);
    assert_eq!(r.pixel_at(0, 2), None);
}

#[test]
fn bytes_round_trip_row_by_row() {
    let bytes: Vec<u8> = (0..24).collect();
    let r = Raster::from_bytes(3, 2, bytes.clone()).unwrap();
    assert_eq!(r.pixel_at(1, 0), Some([4, 5, 6, 7]));
    assert_eq!(r.pixel_at(0, 1), Some([12, 13, 14, 15]));
    assert_eq!(r.to_bytes(), bytes);
}

#[test]
fn short_buffer_is_refused() {
    assert!(Raster::from_bytes(3, 2, vec![0; 23]).is_none());
    assert!(Raster::from_bytes(0, 5, Vec::new()).is_some());
}

