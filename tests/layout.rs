use zerofetch::art::{art_size, ascii, glyph_art, image, resize_bounds};
use zerofetch::fact::{distro, hostname, kernel, username};
use zerofetch::layout::{compute_origin, compute_ratio, ArtSize, LayoutError, Origin, Ratio, ScreenSize};
use zerofetch::panel::RenderConfig;

fn config() -> RenderConfig {
    RenderConfig::new(
        vec![distro("Linux".to_string()), kernel("6.1.0".to_string())],
        (username("ann".to_string()), hostname("box".to_string())),
        false,
    )
}

#[test]
fn ratio_of_glyph_art_on_80_by_24() {
    let r = compute_ratio(ArtSize { width: 30, height: 14 }, ScreenSize { width: 80, height: 24 })
        .unwrap();
    assert_eq!(r, Ratio { x_num: 80, x_den: 30, y_num: 24, y_den: 14 });
    let rx = r.x_num as f64 / r.x_den as f64;
    let ry = r.y_num as f64 / r.y_den as f64;
    assert!((rx - 2.667).abs() < 0.001);
    assert!((ry - 1.714).abs() < 0.001);
    let o = compute_origin(r, 80, 24);
    assert_eq!(o, Origin { x: 34, y: 15, first_row: 6 });
}

#[test]
fn ratio_times_art_gives_terminal() {
    let art = ArtSize { width: 123, height: 45 };
    let term = ScreenSize { width: 1920, height: 1080 };
    let r = compute_ratio(art, term).unwrap();
    let rx = r.x_num as f64 / r.x_den as f64;
    let ry = r.y_num as f64 / r.y_den as f64;
    assert!((rx * 123.0 - 1920.0).abs() < 1e-9);
    assert!((ry * 45.0 - 1080.0).abs() < 1e-9);
}

#[test]
fn zero_art_is_refused() {
    let term = ScreenSize { width: 80, height: 24 };
    assert_eq!(compute_ratio(ArtSize { width: 0, height: 14 }, term), Err(LayoutError::EmptyArt));
    assert_eq!(compute_ratio(ArtSize { width: 30, height: 0 }, term), Err(LayoutError::EmptyArt));
}

#[test]
fn zero_terminal_is_refused() {
    let art = ArtSize { width: 30, height: 14 };
    assert_eq!(
        compute_ratio(art, ScreenSize { width: 0, height: 24 }),
        Err(LayoutError::EmptyTerminal)
    );
    assert_eq!(
        compute_ratio(art, ScreenSize { width: 80, height: 0 }),
        Err(LayoutError::EmptyTerminal)
    );
}

#[test]
fn text_starts_right_of_image_art() {
    // An image 640 px wide on a 1280 px terminal of 160 columns covers 80 columns.
    let r = compute_ratio(ArtSize { width: 640, height: 300 }, ScreenSize { width: 1280, height: 900 })
        .unwrap();
    let o = compute_origin(r, 160, 45);
    assert_eq!(o.x, 84);
    assert!(o.x > 80);
    assert_eq!(o.y, 16);
    assert!(o.y > 15);
}

#[test]
fn layout_is_repeatable() {
    let art = ArtSize { width: 30, height: 14 };
    let term = ScreenSize { width: 100, height: 40 };
    let a = compute_ratio(art, term).unwrap();
    let b = compute_ratio(art, term).unwrap();
    assert_eq!(a, b);
    assert_eq!(compute_origin(a, 100, 40), compute_origin(b, 100, 40));
}

#[test]
fn glyph_art_measures_30_by_14() {
    let art = glyph_art();
    assert_eq!(art.len(), 14);
    assert_eq!(art_size(&art), ArtSize { width: 30, height: 14 });
}

#[test]
fn widest_line_sets_the_width() {
    let lines = vec!["ab", "abcde", "", "\u{2800}\u{2801}\u{2802}"];
    assert_eq!(art_size(&lines), ArtSize { width: 5, height: 4 });
}

#[test]
fn ascii_stores_the_ratio() {
    let mut c = config();
    assert_eq!(ascii(&mut c, ScreenSize { width: 80, height: 24 }), Ok(()));
    assert_eq!(c.ratio, Ratio { x_num: 80, x_den: 30, y_num: 24, y_den: 14 });
    assert_eq!(c.data.len(), 2);
    assert!(!c.icons);
}

#[test]
fn ascii_on_zero_terminal_keeps_the_ratio() {
    let mut c = config();
    let before = c.ratio;
    assert_eq!(ascii(&mut c, ScreenSize { width: 0, height: 24 }), Err(LayoutError::EmptyTerminal));
    assert_eq!(c.ratio, before);
}

#[test]
fn image_stores_the_ratio() {
    let mut c = config();
    let term = ScreenSize { width: 1280, height: 900 };
    assert_eq!(image(&mut c, term, ArtSize { width: 640, height: 300 }), Ok(()));
    assert_eq!(c.ratio, Ratio { x_num: 1280, x_den: 640, y_num: 900, y_den: 300 });
    assert_eq!(image(&mut c, term, ArtSize { width: 0, height: 300 }), Err(LayoutError::EmptyArt));
    assert_eq!(c.ratio, Ratio { x_num: 1280, x_den: 640, y_num: 900, y_den: 300 });
}

#[test]
fn resize_bounds_halve_width_and_shrink_height() {
    assert_eq!(
        resize_bounds(ScreenSize { width: 1920, height: 1080 }),
        ArtSize { width: 960, height: 900 }
    );
    assert_eq!(resize_bounds(ScreenSize { width: 7, height: 6 }), ArtSize { width: 3, height: 5 });
}

#[test]
fn set_ratio_replaces_only_the_ratio() {
    let mut c = config();
    let r = Ratio { x_num: 2, x_den: 3, y_num: 4, y_den: 5 };
    c.set_ratio(&r);
    assert_eq!(c.ratio, r);
    assert_eq!(c.user.0.value, "ann");
}

#[test]
fn default_configuration_from_values() {
    let s = |x: &str| x.to_string();
    let c = RenderConfig::from_values(s("Debian"), s("6.1"), s("1h "), s("zsh"), s("sway"), s("kitty"), s("ann"), s("box"), true);
    let names: Vec<&str> = c.data.iter().map(|d| d.name.as_str()).collect();
    assert_eq!(names, vec!["OS", "Kernel", "Uptime", "Shell", "WM", "Term"]);
    let values: Vec<&str> = c.data.iter().map(|d| d.value.as_str()).collect();
    assert_eq!(values, vec!["Debian", "6.1", "1h ", "zsh", "sway", "kitty"]);
    assert_eq!((c.user.0.name.as_str(), c.user.0.value.as_str()), ("User", "ann"));
    assert_eq!((c.user.1.name.as_str(), c.user.1.value.as_str()), ("Hostname", "box"));
    assert!(c.icons);
    assert_eq!(c.ratio, Ratio { x_num: 1, x_den: 1, y_num: 1, y_den: 1 });
}

#[test]
fn glyph_art_first_line() {
    assert_eq!(glyph_art()[0], "\u{28ff}\u{28ff}\u{28ff}\u{28ff}\u{28ef}\u{28ff}\u{28ff}\u{2804}\u{28a0}\u{28ff}\u{28ff}\u{28ff}\u{28ff}\u{28ff}\u{28ff}\u{28ff}\u{28ff}\u{28ff}\u{28ff}\u{28ff}\u{285f}\u{2808}\u{28ff}\u{28ff}\u{28ff}\u{28ff}\u{28ff}\u{28ff}\u{28c6}\u{2804}");
}
