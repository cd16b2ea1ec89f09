use image::ImageEncoder;
use mirage_tank::{Factor, Image, Layout, MirageTank, Resize};

#[test]
fn a_composite_survives_png() {
    let mut wdata = Vec::new();
    let mut bdata = Vec::new();
    for i in 0..(7 * 5 * 3) {
        wdata.push((i * 11 + 3) as u8);
        bdata.push((i * 7 + 90) as u8);
    }
    let white = Image::from_raw(7, 5, Layout::Rgb8, wdata).unwrap();
    let black = Image::from_raw(7, 5, Layout::Rgb8, bdata).unwrap();
    let mut tank = MirageTank::new(white, black);
    let one = Factor::one();
    let half = Factor::from_raw(32768);
    let out = tank.color_car(one, half, true, Resize::No, half, one).unwrap();

    let mut file = Vec::new();
    image::codecs::png::PngEncoder::new(&mut file)
        .write_image(out.as_raw(), out.width(), out.height(), image::ColorType::Rgba8)
        .unwrap();
    let back = image::load_from_memory_with_format(&file, image::ImageFormat::Png).unwrap();
    let back = back.as_rgba8().unwrap();
    assert_eq!(back.width(), 7);
    assert_eq!(back.height(), 5);
    assert_eq!(back.as_raw(), out.as_raw());
}
