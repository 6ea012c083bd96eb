use epick::color_space::{Illuminant, RgbWorkingSpace};
use epick::palette::{ColorCode, ColorModel, Palette};
use epick::palettes::{NamedPalette, Palettes};

fn rgb(r: f32, g: f32, b: f32) -> ColorCode {
    ColorCode {
        model: ColorModel::Rgb,
        c0: r.to_bits(),
        c1: g.to_bits(),
        c2: b.to_bits(),
        c3: 0,
        working_space: RgbWorkingSpace::SRGB,
        illuminant: Illuminant::D65,
    }
}

fn c1() -> ColorCode {
    rgb(0., 0., 0.)
}
fn c2() -> ColorCode {
    rgb(0., 1., 0.)
}
fn c3() -> ColorCode {
    rgb(1., 0., 1.)
}

fn test_palettes() -> (NamedPalette, NamedPalette, NamedPalette, NamedPalette) {
    let p1 = NamedPalette {
        palette: Palette::from_colors(vec![c1()]),
        name: "p1".into(),
    };
    let p2 = NamedPalette {
        palette: Palette::from_colors(vec![c1(), c2()]),
        name: "p2".into(),
    };
    let p3 = NamedPalette {
        palette: Palette::from_colors(vec![c1(), c2(), c3()]),
        name: "p3".into(),
    };
    let p4 = NamedPalette {
        palette: Palette::from_colors(vec![c3()]),
        name: "p4".into(),
    };
    (p1, p2, p3, p4)
}

#[test]
fn navigation() {
    let (p1, p2, p3, p4) = test_palettes();
    let mut palettes = Palettes::new(p1.clone());

    assert_eq!(palettes.current(), &p1);
    palettes.next();
    assert_eq!(palettes.current(), &p1);
    palettes.prev();
    assert_eq!(palettes.current(), &p1);

    palettes.add(p2.clone());
    assert_eq!(palettes.current(), &p1);
    palettes.next();
    assert_eq!(palettes.current(), &p2);
    palettes.next();
    assert_eq!(palettes.current(), &p2);

    palettes.add(p3.clone());
    palettes.add(p4.clone());
    palettes.next();
    assert_eq!(palettes.current(), &p3);
    palettes.next();
    assert_eq!(palettes.current(), &p4);
    palettes.prev();
    assert_eq!(palettes.current(), &p3);
    palettes.prev();
    assert_eq!(palettes.current(), &p2);
    palettes.prev();
    assert_eq!(palettes.current(), &p1);
    palettes.prev();
    assert_eq!(palettes.current(), &p1);

    palettes.move_to_last();
    assert_eq!(palettes.current(), &p4);

    palettes.move_to_name(&p2.name);
    assert_eq!(palettes.current(), &p2);
    palettes.move_to_name(&p1.name);
    assert_eq!(palettes.current(), &p1);
}

#[test]
fn append() {
    let (p1, _, _, _) = test_palettes();
    let mut palettes = Palettes::new(p1);
    assert_eq!(palettes.len(), 1);
    palettes.append_empty();
    assert_eq!(palettes.len(), 2);
    palettes.move_to_last();
    let p = NamedPalette {
        name: "palette0".into(),
        palette: Palette::default(),
    };
    assert_eq!(palettes.current(), &p);
}

#[test]
fn removal() {
    let (p1, p2, p3, p4) = test_palettes();
    let mut palettes = Palettes::new(p1.clone());
    palettes.add(p1);
    palettes.add(p2);
    palettes.add(p3);
    palettes.add(p4);
}

#[test]
fn addition() {
    let (p1, p2, p3, p4) = test_palettes();
    let mut palettes = Palettes::new(p1.clone());
    palettes.add(p1);
    palettes.add(p2);
    palettes.add(p3);
    palettes.add(p4);
}

#[test]
fn add_refuses_a_known_name() {
    let (p1, p2, _, _) = test_palettes();
    let mut palettes = Palettes::new(p1.clone());
    assert!(!palettes.add(p1.clone()));
    let renamed = NamedPalette {
        name: "p1".into(),
        palette: p2.palette.clone(),
    };
    assert!(!palettes.add(renamed));
    assert!(palettes.add(p2));
    assert_eq!(palettes.len(), 2);
}

#[test]
fn insert_keeps_the_current_palette() {
    let (p1, p2, p3, p4) = test_palettes();
    let mut palettes = Palettes::new(p1.clone());
    palettes.add(p2.clone());
    palettes.move_to_idx(1);
    palettes.insert(0, p3.clone());
    assert_eq!(palettes.current_idx(), 2);
    assert_eq!(palettes.current(), &p2);
    palettes.insert(3, p4.clone());
    assert_eq!(palettes.current(), &p2);
    assert_eq!(palettes.nth(3), Some(&p4));
    assert_eq!(palettes.nth(4), None);
    // Inserting and then removing at the same place gives back the palettes as they were.
    palettes.remove_pos(3);
    assert_eq!(palettes.len(), 3);
    assert_eq!(palettes.current(), &p2);
    let names: Vec<&str> = palettes.iter().map(|p| p.name.as_str()).collect();
    assert_eq!(names, vec!["p3", "p1", "p2"]);
}

#[test]
fn removing_moves_back_and_keeps_one() {
    let (p1, p2, p3, _) = test_palettes();
    let mut palettes = Palettes::new(p1.clone());
    palettes.add(p2.clone());
    palettes.add(p3.clone());
    palettes.move_to_last();
    assert_eq!(palettes.remove_pos(0), Some(p1.clone()));
    assert_eq!(palettes.current(), &p3);
    assert_eq!(palettes.remove_pos(5), None);
    assert_eq!(palettes.remove(&p2), Some(p2.clone()));
    assert_eq!(palettes.current(), &p3);
    assert_eq!(palettes.remove(&p2), None);
    palettes.remove_current();
    assert_eq!(palettes.len(), 1);
    assert_eq!(palettes.current(), &NamedPalette::default());
    assert_eq!(palettes.current().name, "palette");
}

#[test]
fn move_to_idx_ignores_bad_positions() {
    let (p1, p2, _, _) = test_palettes();
    let mut palettes = Palettes::new(p1);
    palettes.add(p2.clone());
    palettes.move_to_idx(7);
    assert_eq!(palettes.current_idx(), 0);
    palettes.move_to_idx(1);
    assert_eq!(palettes.current(), &p2);
    palettes.move_to_name("nothing");
    assert_eq!(palettes.current(), &p2);
}

#[test]
fn swap_exchanges_palettes() {
    let (p1, p2, _, _) = test_palettes();
    let mut palettes = Palettes::new(p1.clone());
    palettes.add(p2.clone());
    palettes.swap(0, 1);
    assert_eq!(palettes.nth(0), Some(&p2));
    assert_eq!(palettes.nth(1), Some(&p1));
    assert_eq!(palettes.current(), &p2);
}

#[test]
fn palette_keeps_colors_unique() {
    let mut palette = Palette::default();
    assert!(palette.is_empty());
    assert!(palette.add(c1()));
    assert!(palette.add(c2()));
    assert!(!palette.add(c1()));
    palette.insert(0, c3());
    palette.insert(0, c2());
    assert_eq!(palette.iter().copied().collect::<Vec<_>>(), vec![c3(), c1(), c2()]);
    palette.swap(0, 2);
    assert_eq!(palette.iter().copied().collect::<Vec<_>>(), vec![c2(), c1(), c3()]);
    assert_eq!(palette.remove(&c1()), Some(c1()));
    assert_eq!(palette.remove(&c1()), None);
    assert_eq!(palette.remove_pos(1), Some(c3()));
    assert_eq!(palette.remove_pos(1), None);
    assert_eq!(palette.len(), 1);
    palette.clear();
    assert!(palette.is_empty());
}

#[test]
fn current_palette_changes_in_place() {
    let (p1, p2, _, _) = test_palettes();
    let mut palettes = Palettes::new(p1);
    palettes.add(p2);
    palettes.next();
    assert!(palettes.current_mut().palette.add(c3()));
    palettes.current_mut().name = "renamed".into();
    assert_eq!(palettes.current_idx(), 1);
    assert_eq!(palettes.current().name, "renamed");
    assert_eq!(palettes.current().palette.len(), 3);
    assert_eq!(palettes.nth(0).unwrap().name, "p1");
    assert_eq!(palettes.nth(0).unwrap().palette.len(), 1);
}

#[test]
fn palettes_from_stored_parts() {
    let (p1, p2, _, _) = test_palettes();
    let palettes = Palettes::from_parts(vec![p1.clone(), p2.clone()], 1).unwrap();
    assert_eq!(palettes.len(), 2);
    assert_eq!(palettes.current_idx(), 1);
    assert_eq!(palettes.current().name, "p2");
    assert!(Palettes::from_parts(vec![p1.clone(), p2], 2).is_none());
    assert!(Palettes::from_parts(vec![], 0).is_none());
    assert!(Palettes::from_parts(vec![p1], 0).is_some());
}
