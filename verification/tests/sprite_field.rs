use bouncing_sprite::geometry::Vector2;
use bouncing_sprite::sprite::{load_to_pixel_map, Pixel, Rgb};

fn rgb(r: u8, g: u8, b: u8) -> Rgb {
    Rgb { r, g, b }
}

fn at(x: i64, y: i64) -> Vector2 {
    Vector2 { x, y }
}

/// A raster whose pixel in column `c` of row `r` has the colour `(c, r, 7)`.
fn numbered(width: u32, height: u32) -> Vec<u8> {
    let mut bytes = Vec::new();
    for r in 0..height {
        for c in 0..width {
            bytes.push(c as u8);
            bytes.push(r as u8);
            bytes.push(7);
        }
    }
    bytes
}

#[test]
fn two_by_two_image_gives_two_entries() {
    let bytes = vec![
        10, 11, 12, 20, 21, 22, // row 0
        30, 31, 32, 40, 41, 42, // row 1
    ];
    let field = load_to_pixel_map(2, 2, &bytes).expect("the raster has the right size");
    assert_eq!(field.len(), 2);
    // Both rows are shown at height 0, and row 1 covers row 0.
    assert_eq!(field.color_of(at(0, 0)), Some(rgb(30, 31, 32)));
    assert_eq!(field.color_of(at(2, 0)), Some(rgb(40, 41, 42)));
    assert_eq!(field.color_of(at(0, 1)), None);
    assert_eq!(field.color_of(at(1, 0)), None);
}

#[test]
fn two_by_two_image_in_cells() {
    let bytes = vec![10, 11, 12, 20, 21, 22, 30, 31, 32, 40, 41, 42];
    let field = load_to_pixel_map(2, 2, &bytes).unwrap();
    let mut cells: Vec<(f64, f64)> = Vec::new();
    for i in 0..field.len() {
        let pixel = field.get(i).unwrap();
        cells.push((pixel.at.x as f64 / 2.0, pixel.at.y as f64 / 2.0));
    }
    assert_eq!(cells, vec![(0.0, 0.0), (1.0, 0.0)]);
}

#[test]
fn rows_from_two_on_are_shown_at_half_height() {
    let bytes = numbered(3, 5);
    let field = load_to_pixel_map(3, 5, &bytes).unwrap();
    // Rows 1, 2, 3 and 4 are kept, three pixels each.
    assert_eq!(field.len(), 12);
    // Row 3 in column 2 is shown at (2, 1.5) cells, that is (4, 3) half cells.
    assert_eq!(field.color_of(at(4, 3)), Some(rgb(2, 3, 7)));
    assert_eq!(field.color_of(at(0, 2)), Some(rgb(0, 2, 7)));
    assert_eq!(field.color_of(at(2, 4)), Some(rgb(1, 4, 7)));
    // Height 0 shows row 1, not row 0.
    assert_eq!(field.color_of(at(2, 0)), Some(rgb(1, 1, 7)));
    // Nothing is shown at half a cell, and nothing outside the picture.
    assert_eq!(field.color_of(at(0, 1)), None);
    assert_eq!(field.color_of(at(6, 0)), None);
    assert_eq!(field.color_of(at(0, 5)), None);
    assert_eq!(field.color_of(at(-2, 0)), None);
}

#[test]
fn listing_runs_row_by_row_from_the_first_kept_row() {
    let bytes = numbered(2, 3);
    let field = load_to_pixel_map(2, 3, &bytes).unwrap();
    let listed: Vec<Pixel> = (0..field.len()).map(|i| field.get(i).unwrap()).collect();
    assert_eq!(
        listed,
        vec![
            Pixel { at: at(0, 0), color: rgb(0, 1, 7) },
            Pixel { at: at(2, 0), color: rgb(1, 1, 7) },
            Pixel { at: at(0, 2), color: rgb(0, 2, 7) },
            Pixel { at: at(2, 2), color: rgb(1, 2, 7) },
        ]
    );
    assert_eq!(field.get(4), None);
}

#[test]
fn single_row_is_kept() {
    let bytes = numbered(3, 1);
    let field = load_to_pixel_map(3, 1, &bytes).unwrap();
    assert_eq!(field.len(), 3);
    assert_eq!(field.color_of(at(4, 0)), Some(rgb(2, 0, 7)));
}

#[test]
fn empty_picture_gives_empty_field() {
    let field = load_to_pixel_map(0, 0, &[]).unwrap();
    assert_eq!(field.len(), 0);
    assert_eq!(field.get(0), None);
    assert_eq!(field.color_of(at(0, 0)), None);
    let flat = load_to_pixel_map(4, 0, &[]).unwrap();
    assert_eq!(flat.len(), 0);
    let thin = load_to_pixel_map(0, 4, &[]).unwrap();
    assert_eq!(thin.len(), 0);
}

#[test]
fn raster_of_the_wrong_length_is_refused() {
    let bytes = numbered(2, 2);
    assert!(load_to_pixel_map(2, 3, &bytes).is_none());
    assert!(load_to_pixel_map(3, 2, &bytes).is_none());
    assert!(load_to_pixel_map(2, 2, &bytes[..11]).is_none());
    assert!(load_to_pixel_map(0, 0, &bytes).is_none());
    assert!(load_to_pixel_map(u32::MAX, u32::MAX, &bytes).is_none());
}

#[test]
fn synthetic_image_round_trip() {
    // The same two by two picture, this time as the decoder hands it over.
    let mut picture = image::RgbImage::new(2, 2);
    picture.put_pixel(0, 0, image::Rgb([10, 11, 12]));
    picture.put_pixel(1, 0, image::Rgb([20, 21, 22]));
    picture.put_pixel(0, 1, image::Rgb([30, 31, 32]));
    picture.put_pixel(1, 1, image::Rgb([40, 41, 42]));
    let field = load_to_pixel_map(picture.width(), picture.height(), picture.as_raw()).unwrap();
    assert_eq!(field.len(), 2);
    assert_eq!(field.color_of(at(0, 0)), Some(rgb(30, 31, 32)));
    assert_eq!(field.color_of(at(2, 0)), Some(rgb(40, 41, 42)));
}
