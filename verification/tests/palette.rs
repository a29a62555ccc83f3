use scribl::palette::{Color, PaletteData};

#[test]
fn default_palette_selects_its_first_color() {
    let p = PaletteData::default();
    assert_eq!(p.colors().len(), 10);
    assert_eq!(p.colors()[0].1, "Charcoal");
    assert_eq!(p.colors()[9].1, "Timberwolf");
    assert_eq!(*p.selected_color(), Color::rgb8(51, 63, 72));
    assert_eq!(Color::rgb8(1, 2, 3), Color { r: 1, g: 2, b: 3, a: 255 });
}

#[test]
fn selecting_by_index() {
    let mut p = PaletteData::default();
    assert_eq!(p.try_select_idx(2), Ok(()));
    assert_eq!(*p.selected_color(), Color::rgb8(248, 151, 31));
    assert_eq!(p.try_select_idx(10), Err(()));
    assert_eq!(*p.selected_color(), Color::rgb8(248, 151, 31));
    p.select(&Color::rgb8(1, 1, 1));
    assert_eq!(*p.selected_color(), Color::rgb8(1, 1, 1));
    assert_eq!(p.colors().len(), 10);
}
