use epick::export::{css_hsl, css_hsl_padded, css_rgb, css_rgb_padded, gimp_palette, hex_list};
use epick::shades::{shades_of, tints_of};

#[test]
fn export_color_palette() {
    let colors = [(0u8, 0u8, 0u8), (255, 0, 0), (0, 255, 0), (0, 0, 255)];
    let want = r#"#000000
#ff0000
#00ff00
#0000ff
"#;
    assert_eq!(hex_list(&colors), want);

    let want = r#"GIMP Palette
Name: colors.gpl
Columns: 1
#
0	0	0	color 0
255	0	0	color 1
0	255	0	color 2
0	0	255	color 3
"#;
    assert_eq!(gimp_palette("colors", &colors), want);
}

#[test]
fn empty_exports() {
    assert_eq!(hex_list(&[]), "");
    assert_eq!(gimp_palette("x", &[]), "GIMP Palette\nName: x.gpl\nColumns: 1\n#\n");
}

#[test]
fn css_notations() {
    assert_eq!(css_rgb(35, 144, 180), "rgb(35,144,180)");
    assert_eq!(css_rgb_padded(5, 44, 180), "rgb(  5, 44,180)");
    assert_eq!(css_hsl(326, 60, 29, true), "hsl(326°,60%,29%)");
    assert_eq!(css_hsl(326, 60, 29, false), "hsl(326,60%,29%)");
    assert_eq!(css_hsl_padded(6, 60, 100, true), "hsl(  6°, 60%,100%)");
    assert_eq!(css_hsl_padded(6, 0, 1000, false), "hsl(  6,  0%,1000%)");
}

#[test]
fn shades_go_to_black() {
    let shades = shades_of((100, 200, 7), 3);
    assert_eq!(shades, vec![(100, 200, 7), (50, 100, 3), (0, 0, 0)]);
    assert_eq!(shades_of((255, 1, 0), 1), vec![(255, 1, 0)]);
    assert_eq!(shades_of((10, 10, 10), 0), vec![(10, 10, 10)]);
    // 9 over 2 steps is 5 a step, which stays at zero once there.
    assert_eq!(shades_of((9, 9, 9), 4), vec![(9, 9, 9), (6, 6, 6), (3, 3, 3), (0, 0, 0)]);
    assert_eq!(shades_of((9, 0, 0), 3), vec![(9, 0, 0), (4, 0, 0), (0, 0, 0)]);
}

#[test]
fn tints_go_to_white() {
    let tints = tints_of((100, 200, 255), 3);
    assert_eq!(tints, vec![(100, 200, 255), (178, 228, 255), (255, 255, 255)]);
    assert_eq!(tints_of((250, 0, 0), 2), vec![(250, 0, 0), (255, 255, 255)]);
    assert_eq!(tints_of((3, 4, 5), 0), vec![(3, 4, 5)]);
}
