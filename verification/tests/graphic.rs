use recibo::{Graphic, GraphicSize, PrinterError, Protocol};

fn graphic(width: u32, height: u32, pixels: Vec<u8>, density: u8) -> Graphic {
    Graphic::new(
        String::from("memory"),
        width,
        height,
        pixels,
        density,
        512,
        GraphicSize::Normal,
    )
    .unwrap()
}

#[test]
fn test_graphic_size() {
    let normal = GraphicSize::Normal;
    let double_width = GraphicSize::DoubleWidth;
    let double_height = GraphicSize::DoubleHeight;
    let double_width_and_height = GraphicSize::DoubleWidthAndHeight;

    assert_eq!(u8::from(&normal), 0x00);
    assert_eq!(u8::from(&double_width), 0x01);
    assert_eq!(u8::from(&double_height), 0x02);
    assert_eq!(u8::from(&double_width_and_height), 0x03);
}

#[test]
fn eight_pixels_pack_into_a_byte_from_the_left() {
    let pixels = vec![0, 255, 255, 255, 255, 255, 255, 255];
    let frame = Protocol::default().graphic(graphic(8, 1, pixels, 8)).unwrap();
    assert_eq!(frame, vec![0x1D, 0x76, 0x30, 0x00, 0x01, 0x00, 0x01, 0x00, 0b1000_0000]);

    let pixels = vec![255, 255, 255, 255, 255, 255, 0, 0];
    let frame = Protocol::default().graphic(graphic(8, 1, pixels, 8)).unwrap();
    assert_eq!(frame[8], 0b0000_0011);
}

#[test]
fn a_pixel_is_marked_up_to_a_luminance_of_128() {
    let pixels = vec![0, 127, 128, 129, 200, 255, 1, 128];
    let frame = Protocol::default().graphic(graphic(8, 1, pixels, 8)).unwrap();
    assert_eq!(frame[8], 0b1110_0011);
}

#[test]
fn a_short_last_byte_holds_its_pixels_in_the_low_bits() {
    // ten pixels: a full byte, then two pixels
    let pixels = vec![0, 0, 0, 0, 0, 0, 0, 0, 0, 255];
    let frame = Protocol::default().graphic(graphic(10, 1, pixels, 8)).unwrap();
    assert_eq!(&frame[4..8], [0x02, 0x00, 0x01, 0x00]);
    assert_eq!(&frame[8..], [0xFF, 0b10]);

    let frame = Protocol::default().graphic(graphic(3, 1, vec![0, 255, 0], 8)).unwrap();
    assert_eq!(&frame[8..], [0b101]);
}

#[test]
fn rows_follow_each_other_from_the_top() {
    let mut pixels = vec![255u8; 16 * 3];
    pixels[0] = 0; // row 0, column 0
    pixels[16 + 15] = 0; // row 1, column 15
    pixels[32 + 8] = 0; // row 2, column 8
    let frame = Protocol::default().graphic(graphic(16, 3, pixels, 8)).unwrap();
    assert_eq!(&frame[4..8], [0x02, 0x00, 0x03, 0x00]);
    assert_eq!(&frame[8..], [0x80, 0x00, 0x00, 0x01, 0x00, 0x80]);
}

#[test]
fn the_density_is_the_distance_between_the_starts_of_bytes() {
    // sixteen dark pixels at density 4: bytes start at 0, 4, 8 and 12
    let frame = Protocol::default().graphic(graphic(16, 1, vec![0; 16], 4)).unwrap();
    assert_eq!(&frame[4..6], [0x02, 0x00]);
    assert_eq!(&frame[8..], [0xFF, 0xFF, 0xFF, 0x0F]);

    // at density 16 a row of sixteen is one byte, of its first eight pixels
    let mut pixels = vec![255u8; 16];
    pixels[7] = 0;
    pixels[8] = 0;
    let frame = Protocol::default().graphic(graphic(16, 1, pixels, 16)).unwrap();
    assert_eq!(&frame[8..], [0x01]);
}

#[test]
fn the_payload_is_rows_times_row_bytes_at_density_eight() {
    for (width, height) in [(1u32, 1u32), (7, 3), (8, 2), (9, 5), (200, 200), (512, 1), (0, 0), (0, 4), (5, 0)] {
        let pixels = vec![0u8; (width * height) as usize];
        let frame = Protocol::default().graphic(graphic(width, height, pixels, 8)).unwrap();
        let row_bytes = (width + 7) / 8;
        assert_eq!(frame.len() as u32, 8 + height * row_bytes);
        assert_eq!(&frame[0..3], [0x1D, 0x76, 0x30]);
        assert_eq!(frame[4] as u32 + 256 * frame[5] as u32, row_bytes);
        assert_eq!(frame[6] as u32 + 256 * frame[7] as u32, height);
    }
}

#[test]
fn the_size_mode_is_the_fourth_byte() {
    for (size, code) in [
        (GraphicSize::Normal, 0u8),
        (GraphicSize::DoubleWidth, 1),
        (GraphicSize::DoubleHeight, 2),
        (GraphicSize::DoubleWidthAndHeight, 3),
    ] {
        let g = Graphic::new(String::from("m"), 1, 1, vec![0], 8, 512, size).unwrap();
        assert_eq!(g.size(), &size);
        let frame = Protocol::default().graphic(g).unwrap();
        assert_eq!(frame[3], code);
    }
}

#[test]
fn sides_above_255_use_both_bytes_of_their_fields() {
    let frame = Protocol::default()
        .graphic(Graphic::new(String::from("m"), 3, 300, vec![255; 900], 8, 512, GraphicSize::Normal).unwrap())
        .unwrap();
    assert_eq!(&frame[4..8], [0x01, 0x00, 0x2C, 0x01]);
    assert_eq!(frame.len(), 8 + 300);
}

#[test]
fn a_grid_that_is_no_graphic_is_invalid_input() {
    let cases: [(u32, u32, usize, u8, u32, &str); 6] = [
        (2, 2, 4, 0, 512, "Input error: Invalid density"),
        (65536, 0, 0, 8, 100000, "Input error: Image too large"),
        (0, 65536, 0, 8, 512, "Input error: Image too large"),
        (513, 1, 513, 8, 512, "Input error: Image wider than the maximum width"),
        (2, 2, 3, 8, 512, "Input error: Pixel count does not match the dimensions"),
        (2, 2, 5, 8, 512, "Input error: Pixel count does not match the dimensions"),
    ];
    for (width, height, count, density, max_width, message) in cases {
        let r = Graphic::new(
            String::from("m"),
            width,
            height,
            vec![0; count],
            density,
            max_width,
            GraphicSize::Normal,
        );
        let refused = r.unwrap_err();
        assert!(matches!(refused, PrinterError::Input(_)));
        assert_eq!(refused.message(), message);
    }
    // density is looked at first
    let r = Graphic::new(String::from("m"), 70000, 1, vec![], 0, 1, GraphicSize::Normal);
    assert_eq!(r.unwrap_err().message(), "Input error: Invalid density");
}

#[test]
fn a_graphic_gives_back_what_it_was_made_of() {
    let g = Graphic::new(
        String::from("logo.png"),
        3,
        2,
        vec![10, 20, 30, 40, 50, 60],
        4,
        100,
        GraphicSize::DoubleHeight,
    )
    .unwrap();
    assert_eq!(g.path(), "logo.png");
    assert_eq!(g.width(), 3);
    assert_eq!(g.height(), 2);
    assert_eq!(g.dimensions(), (3, 2));
    assert_eq!(g.width_bytes(), 1);
    assert_eq!(g.height_bytes(), 1);
    assert_eq!(g.density(), 4);
    assert_eq!(g.max_width(), 100);
    assert_eq!(g.size(), &GraphicSize::DoubleHeight);
    assert_eq!(g.pixel(0, 0), 10);
    assert_eq!(g.pixel(2, 0), 30);
    assert_eq!(g.pixel(0, 1), 40);
    assert_eq!(g.pixel(2, 1), 60);
    assert_eq!(g.clone(), g);
}

#[test]
fn width_bytes_round_up() {
    for (width, bytes) in [(0u32, 0u16), (1, 1), (8, 1), (9, 2), (16, 2), (17, 3), (65535, 8192)] {
        let g = Graphic::new(String::from("m"), width, 0, vec![], 8, 70000, GraphicSize::Normal)
            .unwrap();
        assert_eq!(g.width_bytes(), bytes);
    }
    let g = Graphic::new(String::from("m"), 0, 65535, vec![], 8, 512, GraphicSize::Normal).unwrap();
    assert_eq!(g.height_bytes(), 8192);
}

#[test]
fn the_builder_starts_from_the_defaults() {
    let g = Graphic::builder().path("p").raster(1, 1, vec![9]).build().unwrap();
    assert_eq!(g.density(), 8);
    assert_eq!(g.max_width(), 512);
    assert_eq!(g.size(), &GraphicSize::Normal);
    assert_eq!(g.path(), "p");
}

#[test]
fn the_builder_keeps_what_it_is_given() {
    let g = Graphic::builder()
        .density(2)
        .max_width(64)
        .size(GraphicSize::DoubleWidth)
        .raster(2, 1, vec![1, 2])
        .path("a")
        .path("b")
        .build()
        .unwrap();
    assert_eq!(g.density(), 2);
    assert_eq!(g.max_width(), 64);
    assert_eq!(g.size(), &GraphicSize::DoubleWidth);
    assert_eq!(g.path(), "b");
    assert_eq!(g.dimensions(), (2, 1));
}

#[test]
fn the_builder_needs_a_path_and_an_image() {
    let refused = Graphic::builder().raster(1, 1, vec![0]).build().unwrap_err();
    assert_eq!(refused.message(), "Input error: No path provided");
    let refused = Graphic::builder().build().unwrap_err();
    assert_eq!(refused.message(), "Input error: No path provided");
    let refused = Graphic::builder().path("p").build().unwrap_err();
    assert_eq!(refused.message(), "Input error: No image provided");
    let refused = Graphic::builder().path("p").raster(1, 1, vec![]).build().unwrap_err();
    assert_eq!(
        refused.message(),
        "Input error: Pixel count does not match the dimensions"
    );
    let refused = Graphic::builder().path("p").max_width(2).raster(3, 1, vec![0; 3]).build();
    assert!(refused.is_err());
}

#[test]
fn graphic_sizes_have_names() {
    assert_eq!(GraphicSize::Normal.describe(), "Normal");
    assert_eq!(GraphicSize::DoubleWidth.describe(), "DoubleWidth");
    assert_eq!(GraphicSize::DoubleHeight.describe(), "DoubleHeight");
    assert_eq!(GraphicSize::DoubleWidthAndHeight.describe(), "DoubleWidthAndHeight");
}

#[test]
fn an_image_is_scaled_where_it_is_wider_than_the_maximum() {
    assert!(Graphic::must_scale(513, 512));
    assert!(!Graphic::must_scale(512, 512));
    assert!(!Graphic::must_scale(0, 0));
    assert!(Graphic::must_scale(1, 0));
}
