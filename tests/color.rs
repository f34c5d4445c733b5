use kerfur_display::color::{Bgr565, Bgr666, Bgr888, Gc9503Color, Rgb565, Rgb666, Rgb888};

#[test]
fn pixel_format_bytes_and_channel_order() {
    assert_eq!((Rgb565::COLOR_RGB, Rgb565::COLOR_VALUE), (false, 0x50));
    assert_eq!((Rgb666::COLOR_RGB, Rgb666::COLOR_VALUE), (false, 0x60));
    assert_eq!((Rgb888::COLOR_RGB, Rgb888::COLOR_VALUE), (false, 0x70));
    assert_eq!((Bgr565::COLOR_RGB, Bgr565::COLOR_VALUE), (true, 0x50));
    assert_eq!((Bgr666::COLOR_RGB, Bgr666::COLOR_VALUE), (true, 0x60));
    assert_eq!((Bgr888::COLOR_RGB, Bgr888::COLOR_VALUE), (true, 0x70));
}
