use kerfur_display::touch::TouchStatus;

#[test]
fn touch_status_decodes_little_endian_fields() {
    let s = TouchStatus::from_bytes([1, 0x34, 0x12, 0x78, 0x56, 0x10, 0x00, 9]);
    assert_eq!(s.point_id, 1);
    assert_eq!(s.x, 0x1234);
    assert_eq!(s.y, 0x5678);
    assert_eq!(s.area, 16);
    assert_eq!(s.padding, 9);
}

#[test]
fn touch_status_query_is_zeroed() {
    let s = TouchStatus::new(4);
    assert_eq!(s, TouchStatus { point_id: 4, x: 0, y: 0, area: 0, padding: 0 });
}
