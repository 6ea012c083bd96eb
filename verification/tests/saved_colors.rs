use epick::color_space::{Illuminant, RgbWorkingSpace};
use epick::palette::{ColorCode, ColorModel};
use epick::saved_colors::SavedColors;

fn code(c0: u32) -> ColorCode {
    ColorCode {
        model: ColorModel::Rgb,
        c0,
        c1: 0,
        c2: 0,
        c3: 0,
        working_space: RgbWorkingSpace::SRGB,
        illuminant: Illuminant::D65,
    }
}

#[test]
fn adds_each_hex_once() {
    let mut saved = SavedColors::default();
    assert!(saved.is_empty());
    assert!(saved.add("#ff0000".to_string(), code(1)));
    assert!(!saved.add("#ff0000".to_string(), code(2)));
    assert!(saved.add("#00ff00".to_string(), code(3)));
    assert_eq!(saved.as_slice().len(), 2);
    assert_eq!(saved.as_hex_list(), "#ff0000\n#00ff00\n");
}

#[test]
fn inserts_unless_saved() {
    let mut saved = SavedColors::default();
    saved.add("#000001".to_string(), code(1));
    saved.insert(0, "#000002".to_string(), code(2));
    saved.insert(0, "#000001".to_string(), code(1));
    assert_eq!(saved.as_hex_list(), "#000002\n#000001\n");
    // the same code with another color is a new entry
    saved.insert(1, "#000001".to_string(), code(9));
    assert_eq!(saved.as_hex_list(), "#000002\n#000001\n#000001\n");
}

#[test]
fn removes_and_swaps() {
    let mut saved = SavedColors::default();
    saved.add("#000001".to_string(), code(1));
    saved.add("#000002".to_string(), code(2));
    saved.add("#000003".to_string(), code(3));
    assert_eq!(saved.remove(&code(7)), None);
    let removed = saved.remove(&code(2)).unwrap();
    assert_eq!(removed.0, "#000002");
    assert_eq!(removed.1, code(2));
    assert_eq!(saved.remove_pos(5), None);
    saved.swap(0, 1);
    assert_eq!(saved.as_hex_list(), "#000003\n#000001\n");
    assert_eq!(saved.remove_pos(0).unwrap().0, "#000003");
    saved.clear();
    assert!(saved.is_empty());
    assert_eq!(saved.as_hex_list(), "");
}

#[test]
fn saved_colors_from_entries() {
    let saved = SavedColors::from_entries(vec![
        ("#000001".to_string(), code(1)),
        ("#000001".to_string(), code(2)),
    ]);
    assert_eq!(saved.as_slice().len(), 2);
    assert_eq!(saved.as_hex_list(), "#000001\n#000001\n");
    assert!(SavedColors::from_entries(vec![]).is_empty());
}

#[test]
fn removes_by_hex_and_moves() {
    let mut saved = SavedColors::default();
    saved.add("#000001".to_string(), code(1));
    saved.add("#000002".to_string(), code(2));
    saved.add("#000003".to_string(), code(3));
    assert_eq!(saved.remove_hex("#000009"), None);
    assert_eq!(saved.remove_hex("#000002").unwrap().1, code(2));
    assert_eq!(saved.as_hex_list(), "#000001\n#000003\n");
    saved.move_up(1);
    assert_eq!(saved.as_hex_list(), "#000003\n#000001\n");
    saved.move_up(0);
    assert_eq!(saved.as_hex_list(), "#000003\n#000001\n");
    saved.move_down(0);
    assert_eq!(saved.as_hex_list(), "#000001\n#000003\n");
    saved.move_down(1);
    saved.move_down(7);
    assert_eq!(saved.as_hex_list(), "#000001\n#000003\n");
}

fn rgb(r: f32) -> ColorCode {
    ColorCode {
        model: ColorModel::Rgb,
        c0: r.to_bits(),
        c1: 0f32.to_bits(),
        c2: 0f32.to_bits(),
        c3: 0,
        working_space: RgbWorkingSpace::SRGB,
        illuminant: Illuminant::D65,
    }
}

#[test]
fn colors_compare_as_floats() {
    assert!(rgb(-0.0) == rgb(0.0));
    assert!(rgb(0.5) == rgb(0.5));
    assert!(rgb(0.5) != rgb(0.25));
    assert!(rgb(f32::NAN) != rgb(f32::NAN));
    let mut saved = SavedColors::default();
    saved.add("#000000".to_string(), rgb(0.0));
    assert!(saved.remove(&rgb(-0.0)).is_some());
    assert!(saved.is_empty());
}
