use mirage_tank::resize::{can_resize, resize};
use mirage_tank::{Factor, Image, Layout, MirageTank, Resize, Rgb, Rgba};

fn solid(width: u32, height: u32, color: Rgb) -> Image {
    let mut data = Vec::new();
    for _ in 0..(width as usize * height as usize) {
        data.push(color.r);
        data.push(color.g);
        data.push(color.b);
    }
    Image::from_raw(width, height, Layout::Rgb8, data).unwrap()
}

fn gradient(width: u32, height: u32) -> Image {
    let mut data = Vec::new();
    for y in 0..height {
        for x in 0..width {
            data.push((x * 20) as u8);
            data.push((y * 20) as u8);
            data.push((x + y) as u8);
        }
    }
    Image::from_raw(width, height, Layout::Rgb8, data).unwrap()
}

fn size(img: &Image) -> (u32, u32) {
    (img.width(), img.height())
}

#[test]
fn auto_takes_the_smaller_width_and_height() {
    let mut tank = MirageTank::new(gradient(6, 4), gradient(4, 6));
    assert!(tank.can_reconcile(Resize::Auto));
    tank.resize_auto();
    assert_eq!(size(tank.white_img()), (4, 4));
    assert_eq!(size(tank.black_img()), (4, 4));
    assert_eq!(tank.white_img().as_raw().len(), 48);
    assert_eq!(tank.black_img().as_raw().len(), 48);

    let mut tank = MirageTank::new(gradient(8, 8), gradient(3, 5));
    assert!(tank.can_reconcile(Resize::Auto));
    tank.resize_auto();
    assert_eq!(size(tank.white_img()), (3, 5));
    assert_eq!(size(tank.black_img()), (3, 5));
    assert_eq!(tank.black_img().as_raw(), gradient(3, 5).as_raw());
}

#[test]
fn auto_leaves_equal_sizes_alone() {
    let mut tank = MirageTank::new(gradient(5, 3), solid(5, 3, Rgb { r: 1, g: 2, b: 3 }));
    assert!(tank.can_reconcile(Resize::Auto));
    tank.resize_auto();
    assert_eq!(tank.white_img().as_raw(), gradient(5, 3).as_raw());
    assert_eq!(tank.black_img().as_raw(), solid(5, 3, Rgb { r: 1, g: 2, b: 3 }).as_raw());
}

#[test]
fn resize_to_enlarges() {
    let mut tank = MirageTank::new(gradient(2, 2), gradient(3, 1));
    assert!(tank.can_reconcile(Resize::To(5, 7)));
    tank.resize_to(5, 7);
    assert_eq!(size(tank.white_img()), (5, 7));
    assert_eq!(size(tank.black_img()), (5, 7));
    assert_eq!(tank.white_img().as_raw().len(), 105);
    assert_eq!(tank.black_img().as_raw().len(), 105);
}

#[test]
fn resize_to_shrinks() {
    let mut tank = MirageTank::new(gradient(8, 8), gradient(9, 5));
    assert!(tank.can_reconcile(Resize::To(3, 2)));
    tank.resize_to(3, 2);
    assert_eq!(size(tank.white_img()), (3, 2));
    assert_eq!(size(tank.black_img()), (3, 2));
    assert_eq!(tank.white_img().as_raw().len(), 18);
    assert_eq!(tank.black_img().as_raw().len(), 18);
}

#[test]
fn resize_to_mixed_directions() {
    let mut tank = MirageTank::new(gradient(8, 2), gradient(2, 8));
    assert!(tank.can_reconcile(Resize::To(4, 4)));
    tank.resize_to(4, 4);
    assert_eq!(size(tank.white_img()), (4, 4));
    assert_eq!(size(tank.black_img()), (4, 4));
}

#[test]
fn a_solid_image_stays_solid() {
    let color = Rgb { r: 10, g: 200, b: 77 };
    let src = solid(6, 6, color);
    for (w, h) in [(2, 3), (1, 1), (6, 9), (12, 12), (3, 6), (6, 6), (7, 2)] {
        assert!(can_resize(&src, w, h));
        let out = resize(&src, w, h);
        assert_eq!(size(&out), (w, h));
        assert_eq!(out.layout(), Layout::Rgb8);
        for y in 0..h {
            for x in 0..w {
                assert_eq!(out.rgb_at(x, y), Some(color));
            }
        }
    }
}

#[test]
fn a_thumbnail_averages_blocks() {
    let src = Image::from_raw(
        2,
        2,
        Layout::Rgb8,
        vec![0, 10, 255, 100, 20, 255, 200, 30, 255, 60, 41, 255],
    )
    .unwrap();
    assert!(can_resize(&src, 1, 1));
    let out = resize(&src, 1, 1);
    assert_eq!(out.as_raw(), &vec![90, 25, 255]);

    let src = Image::from_raw(
        4,
        2,
        Layout::Rgb8,
        vec![
            0, 0, 0, 100, 0, 0, 10, 0, 0, 20, 0, 0, //
            200, 0, 0, 60, 0, 0, 30, 0, 0, 40, 0, 0,
        ],
    )
    .unwrap();
    let out = resize(&src, 2, 1);
    assert_eq!(out.as_raw(), &vec![90, 0, 0, 25, 0, 0]);
}

#[test]
fn an_image_with_alpha_is_resized_in_its_layout() {
    let src = Image::from_raw(2, 2, Layout::Rgba8, vec![9, 8, 7, 6, 9, 8, 7, 6, 9, 8, 7, 6, 9, 8, 7, 6])
        .unwrap();
    let out = resize(&src, 3, 3);
    assert_eq!(out.layout(), Layout::Rgba8);
    assert_eq!(size(&out), (3, 3));
    assert_eq!(out.rgba_at(2, 2), Some(Rgba { r: 9, g: 8, b: 7, a: 6 }));
    let out = resize(&src, 1, 1);
    assert_eq!(out.as_raw(), &vec![9, 8, 7, 6]);
}

#[test]
fn empty_targets_and_sources() {
    let src = gradient(4, 4);
    assert!(can_resize(&src, 0, 0));
    let out = resize(&src, 0, 0);
    assert_eq!(size(&out), (0, 0));
    assert!(out.as_raw().is_empty());
    assert!(can_resize(&src, 0, 9));
    let out = resize(&src, 0, 9);
    assert_eq!(size(&out), (0, 9));
    let empty = Image::from_raw(0, 0, Layout::Rgb8, Vec::new()).unwrap();
    assert!(can_resize(&empty, 2, 2));
    let out = resize(&empty, 2, 2);
    assert_eq!(size(&out), (2, 2));
    assert_eq!(out.as_raw().len(), 12);
    let flat = Image::from_raw(3, 0, Layout::Rgb8, Vec::new()).unwrap();
    let out = resize(&flat, 2, 2);
    assert_eq!(size(&out), (2, 2));
}

#[test]
fn targets_beyond_the_limits_are_told_apart() {
    let src = gradient(4, 4);
    assert!(can_resize(&src, 1_048_576, 1));
    assert!(!can_resize(&src, 1_048_577, 1));
    assert!(!can_resize(&src, 1, 1_048_577));
    assert!(!can_resize(&src, u32::MAX, u32::MAX));
    assert!(can_resize(&src, 4, 4));
    let tank = MirageTank::new(gradient(4, 4), gradient(2, 2));
    assert!(tank.can_reconcile(Resize::No));
    assert!(tank.can_reconcile(Resize::Auto));
    assert!(tank.can_reconcile(Resize::To(100, 100)));
    assert!(!tank.can_reconcile(Resize::To(2_000_000, 1)));
}

#[test]
fn transforms_resize_first() {
    let one = Factor::one();
    let white = solid(6, 4, Rgb { r: 200, g: 100, b: 50 });
    let black = solid(4, 6, Rgb { r: 10, g: 20, b: 30 });
    let mut tank = MirageTank::new(white, black);
    assert!(tank.can_reconcile(Resize::Auto));
    let out = tank.grey_car(one, one, false, Resize::Auto).unwrap();
    assert_eq!(size(&out), (4, 4));
    assert_eq!(size(tank.white_img()), (4, 4));
    assert_eq!(size(tank.black_img()), (4, 4));
    for y in 0..4 {
        for x in 0..4 {
            assert_eq!(out.rgba_at(x, y), Some(Rgba { r: 29, g: 29, b: 29, a: 156 }));
        }
    }
    assert!(tank.can_reconcile(Resize::To(9, 2)));
    let out = tank.color_car(one, one, false, Resize::To(9, 2), one, one).unwrap();
    assert_eq!(size(&out), (9, 2));
    assert_eq!(size(tank.white_img()), (9, 2));
    assert_eq!(out.rgba_at(8, 1), Some(Rgba { r: 16, g: 33, b: 49, a: 156 }));
}
