use led_snake::cell::Cell;
use led_snake::pixel::{Pixel, Rgb};

fn text(pixel: Pixel) -> String {
    String::from_utf8(pixel.to_json()).unwrap()
}

#[test]
fn new_keeps_every_field() {
    let pixel = Pixel::new(1, 2, 3, 4, 5);
    assert_eq!(pixel, Pixel { x: 1, y: 2, r: 3, g: 4, b: 5 });
}

#[test]
fn new_black_is_all_zero() {
    assert_eq!(Pixel::new_black(7, 31), Pixel { x: 7, y: 31, r: 0, g: 0, b: 0 });
}

#[test]
fn new_lit_takes_cell_and_color() {
    let pixel = Pixel::new_lit(Cell::new(5, 16), Rgb { r: 255, g: 21, b: 0 });
    assert_eq!(pixel, Pixel { x: 5, y: 16, r: 255, g: 21, b: 0 });
}

#[test]
fn cell_is_in_grid_only_below_both_bounds() {
    assert!(Cell::new(0, 0).is_in_grid(8, 32));
    assert!(Cell::new(7, 31).is_in_grid(8, 32));
    assert!(!Cell::new(8, 31).is_in_grid(8, 32));
    assert!(!Cell::new(7, 32).is_in_grid(8, 32));
    assert!(!Cell::new(0, 0).is_in_grid(0, 32));
    assert!(!Cell::new(0, 0).is_in_grid(8, 0));
}

#[test]
fn wire_text_is_exact() {
    assert_eq!(text(Pixel::new(3, 5, 10, 20, 30)), "{\"x\":3,\"y\":5,\"r\":10,\"g\":20,\"b\":30}");
}

#[test]
fn wire_text_of_extreme_values() {
    assert_eq!(text(Pixel::new(0, 255, 9, 99, 100)), "{\"x\":0,\"y\":255,\"r\":9,\"g\":99,\"b\":100}");
    assert_eq!(text(Pixel::new(200, 101, 110, 199, 250)), "{\"x\":200,\"y\":101,\"r\":110,\"g\":199,\"b\":250}");
    assert_eq!(text(Pixel::new_black(7, 31)), "{\"x\":7,\"y\":31,\"r\":0,\"g\":0,\"b\":0}");
}

#[test]
fn wire_round_trip_through_json_parser() {
    let bytes = Pixel::new(3, 5, 10, 20, 30).to_json();
    let value: serde_json::Value = serde_json::from_slice(&bytes).unwrap();
    let object = value.as_object().unwrap();
    assert_eq!(object.len(), 5);
    assert_eq!(object["x"].as_u64(), Some(3));
    assert_eq!(object["y"].as_u64(), Some(5));
    assert_eq!(object["r"].as_u64(), Some(10));
    assert_eq!(object["g"].as_u64(), Some(20));
    assert_eq!(object["b"].as_u64(), Some(30));
}

#[test]
fn wire_round_trip_of_every_byte_value() {
    for n in 0..=255u8 {
        let pixel = Pixel::new(n, 255 - n, n / 2, n.wrapping_mul(7), n.wrapping_add(100));
        let value: serde_json::Value = serde_json::from_slice(&pixel.to_json()).unwrap();
        assert_eq!(value["x"].as_u64(), Some(u64::from(pixel.x)));
        assert_eq!(value["y"].as_u64(), Some(u64::from(pixel.y)));
        assert_eq!(value["r"].as_u64(), Some(u64::from(pixel.r)));
        assert_eq!(value["g"].as_u64(), Some(u64::from(pixel.g)));
        assert_eq!(value["b"].as_u64(), Some(u64::from(pixel.b)));
    }
}

#[test]
fn wire_text_is_printable_and_of_bounded_length() {
    let shortest = Pixel::new(0, 0, 0, 0, 0).to_json();
    let longest = Pixel::new(255, 255, 255, 255, 255).to_json();
    assert_eq!(shortest.len(), 31);
    assert_eq!(longest.len(), 41);
    for byte in shortest.into_iter().chain(longest) {
        assert!((0x20..0x7f).contains(&byte));
    }
}

#[test]
fn wire_text_differs_for_different_pixels() {
    let pixels = [
        Pixel::new(1, 23, 4, 5, 6),
        Pixel::new(12, 3, 4, 5, 6),
        Pixel::new(1, 2, 34, 5, 6),
        Pixel::new(1, 2, 3, 45, 6),
        Pixel::new(1, 2, 3, 4, 56),
        Pixel::new(0, 0, 0, 0, 0),
        Pixel::new(0, 0, 0, 0, 10),
        Pixel::new(0, 0, 0, 0, 100),
    ];
    for (i, p) in pixels.iter().enumerate() {
        for (j, q) in pixels.iter().enumerate() {
            assert_eq!(p.to_json() == q.to_json(), i == j);
        }
    }
}
